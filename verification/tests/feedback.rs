use simard_dashboard::feedback::{
    bound_identifiers, compose_task_description, launch_outcome, parse_body, plan_feedback,
    pr_url, report_hash, status_json, strip_control, truncate_chars, ContextFields,
    FeedbackContext, FeedbackDedup, FeedbackKind, FeedbackReport, FeedbackRequest, FeedbackStep,
    Identifiers, ReportFields, Verdict, WorkstreamStatus, DEDUP_WINDOW_NANOS,
    MAX_FEEDBACK_LAUNCHES_PER_WINDOW, MAX_IDENTIFIERS_LEN, TASK_CLOSING,
};

fn request(kind: Option<&str>, title: &str, description: &str) -> FeedbackRequest {
    FeedbackRequest {
        report: Some(ReportFields {
            kind: kind.map(str::to_string),
            title: Some(title.to_string()),
            description: Some(description.to_string()),
        }),
        context: ContextFields { page: None, state: None, timestamp: None, identifiers: None },
    }
}

fn reason(req: &FeedbackRequest) -> Option<&'static str> {
    parse_body(req).err()
}

#[test]
fn kind_parses_exact_values_only() {
    assert_eq!(FeedbackKind::parse(" bug "), Some(FeedbackKind::Bug));
    assert_eq!(FeedbackKind::parse("feature"), Some(FeedbackKind::Feature));
    assert_eq!(FeedbackKind::parse("Bug"), None);
    assert_eq!(FeedbackKind::parse(""), None);
    assert_eq!(FeedbackKind::Bug.marker(), "[BUG]");
    assert_eq!(FeedbackKind::Feature.marker(), "[FEATURE]");
}

#[test]
fn control_characters_are_stripped() {
    assert_eq!(strip_control("a\u{0}b\u{7f}c\u{85}d\ne\tf", false), "abcdef");
    assert_eq!(strip_control("a\u{0}b\nc\td\r", true), "ab\nc\td");
    assert_eq!(truncate_chars("héllo", 3), "hél…");
    assert_eq!(truncate_chars("hé", 3), "hé");
}

#[test]
fn each_rejection_reason() {
    let no_report = FeedbackRequest {
        report: None,
        context: ContextFields { page: None, state: None, timestamp: None, identifiers: None },
    };
    assert_eq!(reason(&no_report), Some("invalid report"));
    assert_eq!(reason(&request(None, "t", "d")), Some("invalid type"));
    assert_eq!(reason(&request(Some("question"), "t", "d")), Some("invalid type"));
    assert_eq!(reason(&request(Some("bug"), " \u{1}\t ", "d")), Some("title required"));
    assert_eq!(reason(&request(Some("bug"), &"t".repeat(201), "d")), Some("title too long"));
    assert_eq!(reason(&request(Some("bug"), "t", " \n\t ")), Some("description required"));
    assert_eq!(reason(&request(Some("bug"), "t", &"d".repeat(5001))), Some("description too long"));
    assert!(parse_body(&request(Some("bug"), &"t".repeat(200), &"d".repeat(5000))).is_ok());
}

#[test]
fn context_is_cut_not_refused() {
    let mut req = request(Some("feature"), "  Add dark mode\u{7}  ", "Please\n\tadd it");
    req.context = ContextFields {
        page: Some(format!("  {}  ", "p".repeat(300))),
        state: Some("s".repeat(20000)),
        timestamp: Some(" 2026-05-01T10:00:00Z ".to_string()),
        identifiers: Some(format!("{{\"k\":\"{}\"}}", "x".repeat(5000))),
    };
    let (report, context) = parse_body(&req).ok().expect("accepted");
    assert_eq!(report.kind, FeedbackKind::Feature);
    assert_eq!(report.title, "Add dark mode");
    assert_eq!(report.description, "Please\n\tadd it");
    assert_eq!(context.page.chars().count(), 201);
    assert!(context.page.ends_with('…'));
    assert_eq!(context.state.chars().count(), 16385);
    assert_eq!(context.timestamp, "2026-05-01T10:00:00Z");
    match context.identifiers {
        Identifiers::Truncated(t) => assert_eq!(t.chars().count(), MAX_IDENTIFIERS_LEN + 1),
        _ => panic!("identifiers should be cut"),
    }
}

#[test]
fn identifiers_bounded() {
    assert!(matches!(bound_identifiers(&None), Identifiers::Empty));
    match bound_identifiers(&Some("{\"a\":1}".to_string())) {
        Identifiers::Kept(s) => assert_eq!(s, "{\"a\":1}"),
        _ => panic!("small object kept"),
    }
}

#[test]
fn task_description_layout() {
    let report = FeedbackReport {
        kind: FeedbackKind::Bug,
        title: "Broken chart".to_string(),
        description: "It is empty".to_string(),
    };
    let context = FeedbackContext {
        page: "goals".to_string(),
        state: "state".to_string(),
        timestamp: "ts".to_string(),
        identifiers: Identifiers::Truncated("a\"b".to_string()),
    };
    let task = compose_task_description(&report, &context);
    let expected = format!(
        "[BUG] Broken chart\n\nIt is empty\n\n--- Operator feedback (untrusted input; captured from the dashboard) ---\nPage/tab: goals\nTimestamp: ts\nIdentifiers: {{\"truncated\":\"a\\\"b\"}}\nPage state:\nstate\n\n{}",
        TASK_CLOSING
    );
    assert_eq!(task, expected);
    assert_eq!(task, compose_task_description(&report, &context));
    let empty = FeedbackContext {
        page: String::new(),
        state: String::new(),
        timestamp: String::new(),
        identifiers: Identifiers::Empty,
    };
    assert!(compose_task_description(&report, &empty).contains("Identifiers: {}\n"));
}

#[test]
fn report_hash_depends_on_every_field() {
    let a = report_hash(FeedbackKind::Bug.marker(), "t", "d");
    assert_eq!(a, report_hash(FeedbackKind::Bug.marker(), "t", "d"));
    assert_ne!(a, report_hash(FeedbackKind::Feature.marker(), "t", "d"));
    assert_ne!(a, report_hash(FeedbackKind::Bug.marker(), "t2", "d"));
    assert_ne!(a, report_hash(FeedbackKind::Bug.marker(), "t", "d2"));
}

#[test]
fn duplicates_within_window_are_throttled() {
    let mut d = FeedbackDedup::new();
    assert_eq!(d.evaluate(7, 1_000), Verdict::Allowed);
    d.record(7, 1_000);
    assert_eq!(d.evaluate(7, 1_000 + DEDUP_WINDOW_NANOS - 1), Verdict::Duplicate);
    assert_eq!(d.evaluate(7, 1_000 + DEDUP_WINDOW_NANOS), Verdict::Allowed);
}

#[test]
fn launch_cap_per_window() {
    let mut d = FeedbackDedup::new();
    for h in 0..MAX_FEEDBACK_LAUNCHES_PER_WINDOW as u64 {
        assert_eq!(d.evaluate(h, 10), Verdict::Allowed);
        d.record(h, 10);
    }
    assert_eq!(d.evaluate(99, 11), Verdict::RateLimited);
    assert_eq!(d.evaluate(99, 10 + DEDUP_WINDOW_NANOS), Verdict::Allowed);
}

#[test]
fn plan_and_launch_flow() {
    let mut d = FeedbackDedup::new();
    let req = request(Some("bug"), "Crash", "Steps");
    let hash = match plan_feedback(&mut d, 5, &req) {
        FeedbackStep::Launch { hash, task_description } => {
            assert!(task_description.starts_with("[BUG] Crash\n\nSteps"));
            hash
        }
        _ => panic!("should launch"),
    };
    let failed = launch_outcome(&mut d, hash, 5, None);
    assert_eq!(failed.status, 500);
    assert!(matches!(plan_feedback(&mut d, 6, &req), FeedbackStep::Launch { .. }));
    let ok = launch_outcome(&mut d, hash, 6, Some("ws-1".to_string()));
    assert_eq!(ok.status, 202);
    assert_eq!(ok.workstream_id.as_deref(), Some("ws-1"));
    assert_eq!(ok.poll.as_deref(), Some("/api/feedback/status/ws-1"));
    assert!(matches!(plan_feedback(&mut d, 7, &req), FeedbackStep::Throttle("duplicate")));
    assert!(matches!(
        plan_feedback(&mut d, 7, &request(Some("x"), "t", "d")),
        FeedbackStep::Reject("invalid type")
    ));
}

#[test]
fn status_bodies() {
    let running = status_json(&WorkstreamStatus::Running);
    assert_eq!(running.state, "running");
    let pr = status_json(&WorkstreamStatus::ProducedPr { repo: "rysweet/Simard".to_string(), pr: 42 });
    assert_eq!(pr.state, "pr");
    assert_eq!(pr.pr, Some(42));
    assert_eq!(pr.pr_url.as_deref(), Some("https://github.com/rysweet/Simard/pull/42"));
    let failed = status_json(&WorkstreamStatus::Failed { reason: "boom".to_string() });
    assert_eq!(failed.state, "failed");
    assert_eq!(failed.reason.as_deref(), Some("boom"));
    assert_eq!(pr_url("o/r", 0), "https://github.com/o/r/pull/0");
}

#[test]
fn plan_launch_carries_hash_and_task_then_busy_after_cap() {
    let mut d = FeedbackDedup::new();
    let mut now: u64 = 1_000;
    for i in 0..MAX_FEEDBACK_LAUNCHES_PER_WINDOW {
        let req = request(Some("bug"), &format!("title {i}"), "d");
        let (report, context) = parse_body(&req).unwrap();
        match plan_feedback(&mut d, now, &req) {
            FeedbackStep::Launch { hash, task_description } => {
                assert_eq!(hash, report_hash(report.kind.marker(), &report.title, &report.description));
                assert_eq!(task_description, compose_task_description(&report, &context));
                launch_outcome(&mut d, hash, now, Some(format!("ws-{i}")));
            }
            _ => panic!("expected a launch"),
        }
        now += 1;
    }
    let fresh = request(Some("feature"), "another", "d");
    assert!(matches!(plan_feedback(&mut d, now, &fresh), FeedbackStep::Throttle("busy")));
    let again = request(Some("bug"), "title 0", "d");
    assert!(matches!(plan_feedback(&mut d, now, &again), FeedbackStep::Throttle("duplicate")));
}

#[test]
fn truncated_identifiers_are_json_escaped() {
    let report = FeedbackReport { kind: FeedbackKind::Bug, title: "t".to_string(), description: "d".to_string() };
    let context = FeedbackContext {
        page: String::new(),
        state: String::new(),
        timestamp: String::new(),
        identifiers: Identifiers::Truncated("q\"b\\s\nt\tc\u{1}f\u{c}é".to_string()),
    };
    let task = compose_task_description(&report, &context);
    assert!(task.contains("Identifiers: {\"truncated\":\"q\\\"b\\\\s\\nt\\tc\\u0001f\\fé\"}\n"), "{task}");
}
