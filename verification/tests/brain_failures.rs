use simard_dashboard::brain_failures::{
    count_at_or_after, count_brain_parse_failure_metrics, cycle_file_number, cycle_scan_order,
    fallback_description, humanize_decision, humanize_rationale, is_brain_parse_metric,
    parse_rfc3339, recent_status, recent_window, FailureScan, Judgment, ParseFailure,
    RECENT_WINDOW_MINUTES,
};

#[test]
fn humanize_decision_spaces_machine_tokens() {
    assert_eq!(humanize_decision("consolidate_memory"), "consolidate memory");
    assert_eq!(humanize_decision("run-improvement"), "run improvement");
    assert_eq!(humanize_decision("  "), "");
    assert_eq!(humanize_decision(""), "");
    assert_eq!(humanize_decision("continue"), "continue");
}

#[test]
fn humanize_rationale_maps_known_markers() {
    assert_eq!(
        humanize_rationale("deterministic-brain: prefix-routed"),
        "Chosen by Simard's built-in routing rules (no language model was needed)."
    );
    assert_eq!(
        humanize_rationale("fallback-brain: prefix-routed"),
        "Chosen by Simard's built-in routing rules (no language model was needed)."
    );
    assert_eq!(
        humanize_rationale("deterministic-brain: no LLM configured"),
        "Used the built-in rules because no language model is configured."
    );
}

#[test]
fn humanize_rationale_strips_brain_prefix_and_passes_prose() {
    let out = humanize_rationale("orient-brain: prefix-routed");
    assert!(!out.contains("-brain:"), "leaked machine prefix: {out}");
    assert!(!out.contains("prefix-routed"), "leaked shorthand: {out}");
    assert_eq!(
        humanize_rationale("llm-brain: high-leverage progress"),
        "high-leverage progress"
    );
    assert_eq!(humanize_rationale(""), "");
}

#[test]
fn fallback_description_is_plain_and_jargon_free() {
    let d = fallback_description("decide", "consolidate_memory", Some(50));
    assert_eq!(
        d,
        "The decide phase used its built-in safety rules instead of the language model. \
         It chose to consolidate memory. The rules were 50% confident in that choice."
    );
    for banned in ["deterministic fallback", "language model brain", "consolidate_memory"] {
        assert!(!d.contains(banned), "description leaked jargon {banned:?}: {d}");
    }
}

#[test]
fn fallback_description_omits_absent_confidence_and_empty_decision() {
    let d = fallback_description("orient", "", None);
    assert_eq!(
        d,
        "The orient phase used its built-in safety rules instead of the language model."
    );
    assert!(!d.contains('%'), "absent confidence must not show a percentage: {d}");
    assert!(!d.contains("It chose to"), "empty decision must omit the choice clause: {d}");
}

#[test]
fn recent_status_is_green_only_when_zero() {
    assert_eq!(recent_status(0, 0), "ok");
    assert_eq!(recent_status(2, 0), "warn");
    assert_eq!(recent_status(2, 1), "err");
}

#[test]
fn count_at_or_after_windows_correctly() {
    let now: i64 = 1_800_000_000;
    let instants = vec![(now - 5 * 60, 0), (now - 59 * 60, 0), (now - 120 * 60, 0)];
    let since = (now - 60 * 60, 0);
    assert_eq!(count_at_or_after(&instants, since), 2);
    assert_eq!(count_at_or_after(&[(10, 5)], (10, 6)), 0);
    assert_eq!(count_at_or_after(&[(10, 6)], (10, 6)), 1);
}

#[test]
fn count_brain_parse_failure_metrics_counts_both_metric_names() {
    let metrics = vec![
        ("ooda_cycle".to_string(), (10, 0)),
        ("brain_parse_failure".to_string(), (20, 0)),
        ("brain_parse_error".to_string(), (30, 0)),
        ("brain_parse_error".to_string(), (40, 0)),
        ("other_metric".to_string(), (50, 0)),
    ];
    assert_eq!(count_brain_parse_failure_metrics(&metrics, None), 3);
    assert_eq!(count_brain_parse_failure_metrics(&metrics, Some((30, 0))), 2);
    assert_eq!(count_brain_parse_failure_metrics(&[], None), 0);
}

#[test]
fn brain_parse_metric_names() {
    assert!(is_brain_parse_metric("brain_parse_error"));
    assert!(is_brain_parse_metric("brain_parse_failure"));
    assert!(!is_brain_parse_metric("brain_parse_failures"));
    assert!(!is_brain_parse_metric("unrelated_metric"));
}

#[test]
fn parse_rfc3339_rejects_empty_and_garbage() {
    assert!(parse_rfc3339("").is_none());
    assert!(parse_rfc3339("not-a-date").is_none());
    assert!(parse_rfc3339("2026-07-04T16:24:11+00:00").is_some());
    assert_eq!(parse_rfc3339("1970-01-01T00:00:01.5Z"), Some((1, 500_000_000)));
    assert_eq!(parse_rfc3339("1970-01-01T01:00:00+01:00"), Some((0, 0)));
}

#[test]
fn cycle_files_scanned_newest_first() {
    assert_eq!(cycle_file_number("cycle_42.json"), 42);
    assert_eq!(cycle_file_number("cycle_.json"), 0);
    assert_eq!(cycle_file_number("notes.txt"), 0);
    assert_eq!(cycle_file_number("cycle_99999999999.json"), 0);
    let names = vec![
        "cycle_3.json".to_string(),
        "readme".to_string(),
        "cycle_10.json".to_string(),
        "cycle_7.json".to_string(),
        "other".to_string(),
    ];
    assert_eq!(cycle_scan_order(&names), vec![2, 3, 0, 1, 4]);
    let many: Vec<String> = (0..60).map(|i| format!("cycle_{i}.json")).collect();
    let order = cycle_scan_order(&many);
    assert_eq!(order.len(), 50);
    assert_eq!(order[0], 59);
    assert_eq!(order[49], 10);
}

fn judgment(fallback: bool, pf: Option<ParseFailure>) -> Judgment {
    Judgment {
        fallback,
        parse_failure: pf,
        phase: Some("decide".to_string()),
        decision: Some("consolidate_memory".to_string()),
        rationale: Some("deterministic-brain: prefix-routed".to_string()),
        confidence_percent: Some(50),
    }
}

#[test]
fn scanning_counts_and_describes_failures() {
    let mut scan = FailureScan::new();
    let js = vec![
        judgment(true, None),
        judgment(false, None),
        judgment(
            false,
            Some(ParseFailure {
                error_message: Some("no JSON".to_string()),
                consecutive_count: Some(3),
                prompt_name: Some("decide.md".to_string()),
                timestamp: Some("2026-01-01T00:00:05Z".to_string()),
            }),
        ),
    ];
    scan.scan_report(7, "2026-01-01T00:00:00Z", Some(&js));
    scan.scan_report(8, "", None);
    assert_eq!(scan.cycles_scanned, 2);
    assert_eq!(scan.total_fallback_count, 1);
    assert_eq!(scan.total_parse_failure_count, 1);
    assert_eq!(scan.fallback_instants.len(), 1);
    assert_eq!(scan.failures.len(), 2);
    let f = &scan.failures[0];
    assert_eq!(f.judgment_index, 0);
    assert_eq!(f.failure_type, "deterministic_fallback");
    assert_eq!(
        f.description,
        "The decide phase used its built-in safety rules instead of the language model. It chose to consolidate memory. The rules were 50% confident in that choice."
    );
    assert_eq!(f.phase_plain, "Decide — choosing which action to take for a goal");
    assert_eq!(f.timestamp, "2026-01-01T00:00:00Z");
    assert!(!f.escalated);
    let p = &scan.failures[1];
    assert_eq!(p.judgment_index, 2);
    assert_eq!(p.failure_type, "parse_failure");
    assert_eq!(
        p.description,
        "The decide phase brain failed to parse a valid response from the language model (prompt: decide.md, 3 consecutive failures). Error: no JSON"
    );
    assert_eq!(p.timestamp, "2026-01-01T00:00:05Z");
    assert!(p.escalated);
    assert_eq!(p.rationale, "Chosen by Simard's built-in routing rules (no language model was needed).");
}

#[test]
fn scanning_stops_showing_at_two_hundred() {
    let mut scan = FailureScan::new();
    let js: Vec<Judgment> = (0..150).map(|_| judgment(true, None)).collect();
    scan.scan_report(1, "", Some(&js));
    scan.scan_report(2, "", Some(&js));
    assert_eq!(scan.failures.len(), 200);
    assert_eq!(scan.total_fallback_count, 300);
    assert!(scan.fallback_instants.is_empty());
}

#[test]
fn recent_window_sums_both_sources() {
    let metrics = vec![("brain_parse_error".to_string(), (100, 0)), ("brain_parse_error".to_string(), (1, 0))];
    let w = recent_window(&[(50, 0), (200, 0)], &metrics, (60, 0));
    assert_eq!(w.fallback, 1);
    assert_eq!(w.parse_failure, 1);
    assert_eq!(w.total, 2);
    assert_eq!(w.status, "err");
    let quiet = recent_window(&[], &[], (0, 0));
    assert_eq!(quiet.status, "ok");
}

fn now_instant() -> (i64, u32) {
    let d = std::time::SystemTime::now()
        .duration_since(std::time::UNIX_EPOCH)
        .unwrap();
    (d.as_secs() as i64, d.subsec_nanos())
}

#[test]
fn recent_parse_failures_from_metrics_counts_only_recent_brain_parse_events() {
    let now = now_instant();
    let recent = (now.0 - 10 * 60, now.1);
    let old = (now.0 - 6 * 3600, now.1);
    let metrics = vec![
        ("brain_parse_error".to_string(), recent),
        ("brain_parse_failure".to_string(), recent),
        ("brain_parse_failure".to_string(), old),
        ("ooda_cycle".to_string(), recent),
    ];
    let since = (now.0 - RECENT_WINDOW_MINUTES * 60, now.1);
    assert_eq!(count_brain_parse_failure_metrics(&metrics, Some(since)), 2);
}

#[test]
fn recent_parse_failures_from_metrics_missing_file_is_zero() {
    let now = now_instant();
    let since = (now.0 - RECENT_WINDOW_MINUTES * 60, now.1);
    // A missing metrics file reads as no metrics at all.
    assert_eq!(count_brain_parse_failure_metrics(&[], Some(since)), 0);
}
