use simard_dashboard::agent_log::{
    backfill_frame, line_frame, open_failed_notice, wait_step, LogTail, WaitStep,
    agent_log_path, sanitize_agent_name, AGENT_LOG_BACKFILL_LINES, AGENT_LOG_MAX_TICK_BYTES,
    AGENT_LOG_TICK_MS, AGENT_LOG_WAIT_TIMEOUT_MS, WS_AGENT_LOG_ROUTE,
};

#[test]
fn accepts_alphanumeric() {
    assert_eq!(sanitize_agent_name("agent01"), Some("agent01".to_string()));
}

#[test]
fn accepts_hyphens_and_underscores() {
    assert_eq!(
        sanitize_agent_name("my-agent_v2"),
        Some("my-agent_v2".to_string())
    );
}

#[test]
fn rejects_empty() {
    assert_eq!(sanitize_agent_name(""), None);
}

#[test]
fn rejects_over_64_chars() {
    let long = "a".repeat(65);
    assert_eq!(sanitize_agent_name(&long), None);
}

#[test]
fn accepts_exactly_64_chars() {
    let exact = "a".repeat(64);
    assert!(sanitize_agent_name(&exact).is_some());
}

#[test]
fn rejects_path_traversal_dots() {
    assert_eq!(sanitize_agent_name("../etc/passwd"), None);
    assert_eq!(sanitize_agent_name(".."), None);
}

#[test]
fn rejects_slashes() {
    assert_eq!(sanitize_agent_name("agent/name"), None);
    assert_eq!(sanitize_agent_name("agent\\name"), None);
}

#[test]
fn rejects_spaces() {
    assert_eq!(sanitize_agent_name("agent name"), None);
}

#[test]
fn rejects_null_bytes() {
    assert_eq!(sanitize_agent_name("agent\0name"), None);
}

#[test]
fn rejects_non_ascii() {
    assert_eq!(sanitize_agent_name("agënt"), None);
    assert_eq!(sanitize_agent_name("日本語"), None);
}

#[test]
fn rejects_control_chars() {
    assert_eq!(sanitize_agent_name("agent\nname"), None);
    assert_eq!(sanitize_agent_name("agent\tname"), None);
}

#[test]
fn agent_log_path_structure() {
    let path = agent_log_path("/home/user/.simard/state", "my-agent");
    assert_eq!(path, "/home/user/.simard/state/agent_logs/my-agent.log");
}

#[test]
fn agent_log_path_appends_log_extension() {
    let path = agent_log_path("/tmp", "test");
    assert!(path.ends_with(".log"));
}

#[test]
fn agent_log_path_uses_agent_logs_dir() {
    let path = agent_log_path("/state", "x");
    assert!(path.contains("agent_logs"));
}

#[test]
fn agent_log_path_with_trailing_slash_root() {
    assert_eq!(agent_log_path("/state/", "x"), "/state/agent_logs/x.log");
    assert_eq!(agent_log_path("", "x"), "agent_logs/x.log");
}

#[test]
fn constants_have_sensible_values() {
    assert!(AGENT_LOG_BACKFILL_LINES > 0);
    assert!(AGENT_LOG_MAX_TICK_BYTES > 0);
    assert!(AGENT_LOG_TICK_MS > 0);
    assert!(AGENT_LOG_WAIT_TIMEOUT_MS > AGENT_LOG_TICK_MS);
}

#[test]
fn ws_route_contains_agent_name_param() {
    assert!(WS_AGENT_LOG_ROUTE.contains("{agent_name}"));
}

#[test]
fn tail_plans_reads_and_resets_on_truncation() {
    let mut t = LogTail::new(100);
    let p = t.plan(100);
    assert!(!p.truncated);
    assert_eq!(p.read, None);
    let p = t.plan(150);
    assert_eq!(p.read, Some((100, 50)));
    let p = t.plan(100 + 3 * AGENT_LOG_MAX_TICK_BYTES);
    assert_eq!(p.read, Some((100, AGENT_LOG_MAX_TICK_BYTES)));
    let p = t.plan(10);
    assert!(p.truncated);
    assert_eq!(p.read, Some((0, 10)));
}

#[test]
fn tail_emits_complete_lines_and_keeps_partial() {
    let mut t = LogTail::new(0);
    let lines = t.absorb(b"first\nsec");
    assert_eq!(lines, vec![b"first\n".to_vec()]);
    let lines = t.absorb(b"ond\r\nthird\nfour");
    assert_eq!(lines, vec![b"second\r\n".to_vec(), b"third\n".to_vec()]);
    assert_eq!(t.plan(26).read, Some((24, 2)));
    let frames: Vec<String> = lines.iter().map(|l| line_frame(l)).collect();
    assert_eq!(frames, vec!["second".to_string(), "third".to_string()]);
    assert_eq!(line_frame(b"bad \xff\n"), "bad \u{fffd}");
}

#[test]
fn waiting_for_the_log_file() {
    assert!(matches!(wait_step(true, 400), WaitStep::Found(400)));
    assert!(matches!(wait_step(false, 29_999), WaitStep::Sleep));
    assert!(matches!(wait_step(false, 30_000), WaitStep::GiveUp));
    assert_eq!(backfill_frame("line"), "line\n");
    assert_eq!(open_failed_notice("denied"), "[simard] could not open log: denied\n");
}
