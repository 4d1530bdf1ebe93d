use simard_dashboard::current_work::{
    cycle_status, format_recent_actions_for_cycle, goal_status_label, phase_display,
    CycleActions, HealthFields, Outcome, PlannedAction,
};
use simard_dashboard::goals::GoalProgress;

fn s(v: &str) -> Option<String> {
    Some(v.to_string())
}

fn empty_report() -> CycleActions {
    CycleActions {
        timestamp: None,
        outcomes: None,
        planned_actions: None,
        top_summary: None,
        summary: None,
        actions_taken: None,
    }
}

#[test]
fn format_actions_from_outcomes() {
    let mut report = empty_report();
    report.timestamp = s("2026-01-01T00:00:00Z");
    report.outcomes = Some(vec![Outcome {
        action_kind: s("advance-goal"),
        detail: s("opened PR #42"),
        action_description: s("fallback desc"),
    }]);
    let actions = format_recent_actions_for_cycle(5, &report);
    assert_eq!(actions.len(), 1);
    assert_eq!(actions[0].cycle, 5);
    assert_eq!(actions[0].action, "advance-goal");
    assert!(actions[0].result.contains("PR #42"));
    assert_eq!(actions[0].at, "2026-01-01T00:00:00Z");
}

#[test]
fn format_actions_prefers_detail_over_description() {
    let mut report = empty_report();
    report.timestamp = s("2026-01-01T00:00:00Z");
    report.outcomes = Some(vec![Outcome {
        action_kind: s("test"),
        detail: s("specific detail"),
        action_description: s("generic desc"),
    }]);
    let actions = format_recent_actions_for_cycle(1, &report);
    assert!(actions[0].result.contains("specific detail"));
}

#[test]
fn format_actions_from_planned_when_no_outcomes() {
    let mut report = empty_report();
    report.timestamp = s("2026-01-01T00:00:00Z");
    report.planned_actions = Some(vec![PlannedAction {
        kind: s("advance-goal"),
        description: s("plan to fix bug"),
    }]);
    let actions = format_recent_actions_for_cycle(3, &report);
    assert_eq!(actions.len(), 1);
    assert_eq!(actions[0].action, "advance-goal");
    assert!(actions[0].result.contains("plan to fix bug"));
}

#[test]
fn format_actions_from_summary_as_last_resort() {
    let mut report = empty_report();
    report.top_summary = s("Cycle completed with no actions");
    let actions = format_recent_actions_for_cycle(7, &report);
    assert_eq!(actions.len(), 1);
    assert_eq!(actions[0].action, "cycle-summary");
    assert_eq!(actions[0].result, "Cycle completed with no actions");
}

#[test]
fn format_actions_empty_when_no_data() {
    let report = empty_report();
    let actions = format_recent_actions_for_cycle(1, &report);
    assert!(actions.is_empty());
}

#[test]
fn format_actions_empty_detail_falls_back_to_description() {
    let mut report = empty_report();
    report.outcomes = Some(vec![
        Outcome { action_kind: None, detail: s(""), action_description: s("desc") },
        Outcome { action_kind: None, detail: None, action_description: None },
    ]);
    let actions = format_recent_actions_for_cycle(2, &report);
    assert_eq!(actions.len(), 2);
    assert_eq!(actions[0].action, "action");
    assert_eq!(actions[0].result, "desc");
    assert_eq!(actions[1].result, "(no detail)");
    assert_eq!(actions[1].at, "");
}

#[test]
fn format_actions_cut_long_results_after_200_chars() {
    let mut report = empty_report();
    report.planned_actions = Some(vec![PlannedAction { kind: None, description: s(&"x".repeat(250)) }]);
    let actions = format_recent_actions_for_cycle(4, &report);
    assert_eq!(actions[0].result.chars().count(), 201);
    assert!(actions[0].result.ends_with('…'));
    assert!(actions[0].result.starts_with(&"x".repeat(200)));
}

#[test]
fn empty_outcomes_fall_through_to_planned_actions() {
    let mut report = empty_report();
    report.outcomes = Some(vec![]);
    report.planned_actions = Some(vec![PlannedAction { kind: s("k"), description: s("") }]);
    let actions = format_recent_actions_for_cycle(4, &report);
    assert_eq!(actions.len(), 1);
    assert_eq!(actions[0].result, "(no description)");
}

#[test]
fn summary_prefers_wrapper_then_report_then_actions_taken() {
    let mut report = empty_report();
    report.actions_taken = s("took actions");
    assert_eq!(format_recent_actions_for_cycle(1, &report)[0].result, "took actions");
    report.summary = s("report summary");
    assert_eq!(format_recent_actions_for_cycle(1, &report)[0].result, "report summary");
    report.top_summary = s("wrapper summary");
    assert_eq!(format_recent_actions_for_cycle(1, &report)[0].result, "wrapper summary");
}

#[test]
fn phase_display_capitalises_first_char() {
    assert_eq!(phase_display("sleep"), "Sleep");
    assert_eq!(phase_display("unknown"), "Unknown");
    assert_eq!(phase_display(""), "Unknown");
    assert_eq!(phase_display("ßtate"), "SState");
}

fn health() -> HealthFields {
    HealthFields {
        cycle_number: Some(3),
        cycle_phase: s("sleep"),
        cycle_start_epoch: Some(1000),
        interval_secs: Some(60),
        last_cycle_summary: s("done"),
        cycle_duration_secs: Some(40),
    }
}

#[test]
fn cycle_status_counts_down_while_sleeping() {
    let st = cycle_status(&health(), &["cycle_9.json".to_string()], 1050);
    assert_eq!(st.cycle_number, 9);
    assert_eq!(st.cycle_phase, "Sleep");
    assert_eq!(st.uptime_seconds, 50);
    assert_eq!(st.last_cycle_summary, "done");
    assert_eq!(st.next_cycle_eta_seconds, 50);
    let late = cycle_status(&health(), &[], 2000);
    assert_eq!(late.cycle_number, 3);
    assert_eq!(late.next_cycle_eta_seconds, 0);
}

#[test]
fn cycle_status_defaults_when_health_is_missing() {
    let h = HealthFields {
        cycle_number: None,
        cycle_phase: None,
        cycle_start_epoch: None,
        interval_secs: None,
        last_cycle_summary: None,
        cycle_duration_secs: None,
    };
    let st = cycle_status(&h, &[], 1234);
    assert_eq!(st.cycle_number, 0);
    assert_eq!(st.cycle_phase, "Unknown");
    assert_eq!(st.uptime_seconds, 0);
    assert_eq!(st.last_cycle_summary, "");
    assert_eq!(st.next_cycle_eta_seconds, 0);
    let mut sleeping = h;
    sleeping.cycle_phase = s("sleep");
    assert_eq!(cycle_status(&sleeping, &[], 1234).next_cycle_eta_seconds, 300);
}

#[test]
fn goal_status_labels() {
    assert_eq!(goal_status_label(&GoalProgress::InProgress { percent: 40 }), ("in_progress(40%)".to_string(), None));
    assert_eq!(goal_status_label(&GoalProgress::NotStarted).0, "not_started");
    assert_eq!(
        goal_status_label(&GoalProgress::Blocked("ci red".to_string())),
        ("blocked".to_string(), Some("ci red".to_string()))
    );
    assert_eq!(goal_status_label(&GoalProgress::Completed).0, "completed");
}
