use simard_dashboard::goals::{
    active_status_breakdown, fact_listable, human_backlog_id, human_source_label,
    looks_like_debug_string, memory_backlog_entry, GoalProgress,
};

#[test]
fn debug_string_detected() {
    assert!(looks_like_debug_string("priority=3 status=proposed rationale=Action needed"));
}

#[test]
fn normal_prose_not_detected_as_debug() {
    assert!(!looks_like_debug_string("Fix the login page CSS"));
    assert!(!looks_like_debug_string("Improve error handling in the auth module"));
}

#[test]
fn two_kv_pairs_not_flagged() {
    assert!(!looks_like_debug_string("status=active priority=1"));
}

#[test]
fn debug_tokens_need_two_byte_keys_and_values() {
    assert!(!looks_like_debug_string("a=1 b=2 c=3 d=4"));
    assert!(!looks_like_debug_string("ab= cd= ef="));
    assert!(looks_like_debug_string("é=1 ab=2 cd=3"));
    assert!(looks_like_debug_string("  ab=1\tcd=2\nef=3  "));
}

#[test]
fn human_backlog_id_from_long_content() {
    let id = human_backlog_id("Improve the login page to handle OAuth better", "goal-action");
    assert_eq!(id, "Improve the login page to handle");
}

#[test]
fn human_backlog_id_from_short_content() {
    let id = human_backlog_id("OK", "goal-action");
    assert_eq!(id, "From goals");
}

#[test]
fn human_backlog_id_cuts_long_slug_at_fifty_bytes() {
    let id = human_backlog_id(
        "Supercalifragilistic expialidocious words continue onward forever more",
        "x",
    );
    assert_eq!(id, "Supercalifragilistic expialidocious words continue…");
    let wide = human_backlog_id("ééééééééééééééééééééééééé ééééééééé", "x");
    assert_eq!(wide, "ééééééééééééééééééééééééé…");
}

#[test]
fn human_source_label_maps_concepts() {
    assert_eq!(human_source_label("goal-action"), "From goals");
    assert_eq!(human_source_label("action-item"), "From actions");
    assert_eq!(human_source_label("decision-record"), "From decisions");
    assert_eq!(human_source_label("meeting-note"), "From meeting");
    assert_eq!(human_source_label("other-concept"), "From memory");
    assert_eq!(human_source_label("Past-EPISODE"), "From past event");
}

#[test]
fn memory_facts_filtered_and_deduplicated() {
    assert!(!fact_listable("goal-board:snapshot", "anything"));
    assert!(!fact_listable("goal", "  {\"active\":[]}"));
    assert!(!fact_listable("goal", "[1,2]"));
    assert!(!fact_listable("goal", "priority=3 status=proposed rationale=Action"));
    assert!(fact_listable("meeting", "Ship the release notes"));
    let mut seen = vec!["known".to_string()];
    assert!(memory_backlog_entry(&mut seen, "known", "meeting", "Ship it now").is_none());
    let e = memory_backlog_entry(&mut seen, "sem_1", "meeting-note", "Ship the release notes")
        .expect("listed");
    assert_eq!(e.id, "sem_1");
    assert_eq!(e.display_id, "Ship the release notes");
    assert_eq!(e.source, "From meeting");
    assert_eq!(seen, vec!["known".to_string(), "sem_1".to_string()]);
    assert!(memory_backlog_entry(&mut seen, "sem_1", "meeting", "Ship again").is_none());
}

#[test]
fn breakdown_always_has_all_six_keys() {
    let empty: Vec<GoalProgress> = vec![];
    let b = active_status_breakdown(&empty);
    for key in ["proposed", "not_started", "in_progress", "blocked", "paused", "completed"] {
        assert_eq!(b.get(key), Some(0), "missing {key}");
    }
    assert_eq!(b.get("unknown"), None);
}

#[test]
fn breakdown_counts_each_variant_faithfully() {
    let statuses = vec![
        GoalProgress::Proposed,
        GoalProgress::NotStarted,
        GoalProgress::NotStarted,
        GoalProgress::InProgress { percent: 40 },
        GoalProgress::Blocked("some reason".to_string()),
        GoalProgress::Blocked("another reason".to_string()),
        GoalProgress::Blocked("third".to_string()),
        GoalProgress::Paused,
        GoalProgress::Completed,
        GoalProgress::Completed,
    ];
    let b = active_status_breakdown(&statuses);
    assert_eq!(b.get("proposed"), Some(1));
    assert_eq!(b.get("not_started"), Some(2));
    assert_eq!(b.get("in_progress"), Some(1));
    assert_eq!(b.get("blocked"), Some(3));
    assert_eq!(b.get("paused"), Some(1));
    assert_eq!(b.get("completed"), Some(2));
}

#[test]
fn breakdown_in_progress_at_100_percent_is_not_completed() {
    let statuses = [GoalProgress::InProgress { percent: 100 }];
    let b = active_status_breakdown(&statuses);
    assert_eq!(b.get("in_progress"), Some(1));
    assert_eq!(b.get("completed"), Some(0));
}

#[test]
fn breakdown_sum_equals_input_len() {
    let statuses = [
        GoalProgress::Proposed,
        GoalProgress::InProgress { percent: 10 },
        GoalProgress::Completed,
        GoalProgress::Blocked("x".to_string()),
        GoalProgress::Paused,
    ];
    let b = active_status_breakdown(&statuses);
    let sum: u64 = ["proposed", "not_started", "in_progress", "blocked", "paused", "completed"]
        .iter()
        .map(|k| b.get(k).unwrap_or(0))
        .sum();
    assert_eq!(sum as usize, statuses.len());
}
