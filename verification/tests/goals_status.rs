use simard_dashboard::goals_status::{
    collapse_punctuation, render_status_and_detail, StatusChip, DETAIL_MAX_CHARS,
};


#[test]
fn chip_labels_match_acceptance_spec() {
    assert_eq!(StatusChip::Working.as_str(), "Working");
    assert_eq!(StatusChip::Skipped.as_str(), "Skipped");
    assert_eq!(StatusChip::Failed.as_str(), "Failed");
    assert_eq!(StatusChip::SpawnedEngineer.as_str(), "Spawned engineer");
    assert_eq!(StatusChip::Waiting.as_str(), "Waiting");
}

#[test]
fn none_input_yields_waiting() {
    let (chip, detail, full) = render_status_and_detail(None);
    assert_eq!(chip, StatusChip::Waiting);
    assert!(detail.is_empty());
    assert!(full.is_empty());
}

#[test]
fn empty_string_yields_waiting() {
    let (chip, detail, full) = render_status_and_detail(Some(""));
    assert_eq!(chip, StatusChip::Waiting);
    assert!(detail.is_empty());
    assert_eq!(full, "");
}

#[test]
fn whitespace_only_yields_waiting() {
    let (chip, detail, _) = render_status_and_detail(Some("   \n  "));
    assert_eq!(chip, StatusChip::Waiting);
    assert!(detail.is_empty());
}

#[test]
fn continue_skipping_yields_skipped_chip_and_strips_brain_vocab() {
    let raw = "advance-goal: brain: continue_skipping (brain-error fallback: \
               base type 'ooda-brain' failed during invocation: no JSON object found in…";
    let (chip, detail, full) = render_status_and_detail(Some(raw));
    assert_eq!(chip, StatusChip::Skipped);
    assert!(
        !detail.contains("brain:"),
        "detail still leaks 'brain:': {detail}"
    );
    assert!(
        !detail.contains("continue_skipping"),
        "detail still leaks 'continue_skipping': {detail}"
    );
    assert!(
        !detail.contains("ooda-brain"),
        "detail still leaks 'ooda-brain': {detail}"
    );
    assert!(
        !detail.contains("brain-error fallback"),
        "detail still leaks 'brain-error fallback': {detail}"
    );
    assert!(detail.starts_with("advance-goal"));
    assert_eq!(full, raw, "detail_full must preserve the original verbatim");
}

#[test]
fn advance_goal_failed_yields_failed_chip() {
    let raw = "advance-goal (failed): goal-action parse failed: missing 'choice' field";
    let (chip, detail, full) = render_status_and_detail(Some(raw));
    assert_eq!(chip, StatusChip::Failed);
    assert!(
        !detail.contains("goal-action parse failed"),
        "detail leaks parse-failed phrase: {detail}"
    );
    assert!(detail.contains("missing 'choice' field"));
    assert_eq!(full, raw);
}

#[test]
fn run_improvement_failed_also_yields_failed_chip() {
    let raw = "run-improvement (failed): patch did not apply cleanly";
    let (chip, _detail, _) = render_status_and_detail(Some(raw));
    assert_eq!(chip, StatusChip::Failed);
}

#[test]
fn spawn_engineer_dispatched_yields_spawned_chip() {
    let raw = "advance-goal: spawn_engineer dispatched: agent='dashboard-1684', \
               task='Fix unreadable Current Activity column' (goal 'dashboard-1684', pid=12345)";
    let (chip, detail, full) = render_status_and_detail(Some(raw));
    assert_eq!(chip, StatusChip::SpawnedEngineer);
    assert!(
        !detail.contains("spawn_engineer dispatched"),
        "detail still leaks 'spawn_engineer dispatched': {detail}"
    );
    assert!(detail.contains("agent='dashboard-1684'"));
    assert_eq!(full, raw);
}

#[test]
fn successful_advance_goal_yields_working_chip() {
    let raw = "advance-goal: opened PR #1685 to fix Current Activity column";
    let (chip, detail, full) = render_status_and_detail(Some(raw));
    assert_eq!(chip, StatusChip::Working);
    assert!(detail.contains("opened PR #1685"));
    assert_eq!(full, raw);
}

#[test]
fn other_action_kinds_default_to_working() {
    let raw = "consolidate-memory: 42 facts merged into long-term store";
    let (chip, _detail, _) = render_status_and_detail(Some(raw));
    assert_eq!(chip, StatusChip::Working);
}

#[test]
fn leaked_copilot_launcher_warning_is_stripped() {
    let raw = "advance-goal: Warning: Could not read Copilot config.json: \
               No such file. brain: continue_skipping";
    let (chip, detail, full) = render_status_and_detail(Some(raw));
    assert_eq!(chip, StatusChip::Skipped);
    assert!(
        !detail.contains("Could not read Copilot config"),
        "detail leaks launcher warning: {detail}"
    );
    assert!(
        !detail.contains("Warning:"),
        "detail leaks 'Warning:': {detail}"
    );
    assert!(!detail.contains("brain:"));
    assert_eq!(full, raw, "detail_full preserves launcher noise verbatim");
}

#[test]
fn launcher_noise_on_its_own_line_is_dropped() {
    let raw = "advance-goal: dispatching\nWarning: Could not read Copilot config.json: ENOENT\nfinished cleanly";
    let (_chip, detail, _) = render_status_and_detail(Some(raw));
    assert!(detail.contains("dispatching"));
    assert!(detail.contains("finished cleanly"));
    assert!(!detail.contains("Could not read Copilot config"));
}

#[test]
fn detail_is_hard_capped_at_140_chars() {
    let long_tail = "x".repeat(500);
    let raw = format!("advance-goal: {long_tail}");
    let (_chip, detail, full) = render_status_and_detail(Some(&raw));
    assert!(
        detail.chars().count() <= DETAIL_MAX_CHARS + 1,
        "detail length {} exceeds cap {DETAIL_MAX_CHARS}",
        detail.chars().count()
    );
    assert!(
        detail.ends_with('…'),
        "detail must end with '…' when truncated"
    );
    assert_eq!(full, raw, "detail_full carries the untruncated original");
}

#[test]
fn detail_under_cap_is_not_modified_with_ellipsis() {
    let raw = "advance-goal: short and sweet";
    let (_chip, detail, _) = render_status_and_detail(Some(raw));
    assert!(!detail.ends_with('…'));
}

#[test]
fn detail_full_preserves_existing_mid_sentence_ellipsis() {
    let raw = "advance-goal: brain: continue_skipping no JSON object found in…";
    let (_chip, _detail, full) = render_status_and_detail(Some(raw));
    assert!(full.ends_with('…'));
}

#[test]
fn function_is_deterministic() {
    let raw = "advance-goal: brain: continue_skipping (brain-error fallback)";
    let a = render_status_and_detail(Some(raw));
    let b = render_status_and_detail(Some(raw));
    assert_eq!(a, b);
}

#[test]
fn unicode_input_does_not_panic_or_slice_inside_char() {
    let raw = "advance-goal: 日本語のテスト brain: continue_skipping ".repeat(20);
    let (_chip, detail, full) = render_status_and_detail(Some(&raw));
    assert!(detail.chars().count() <= DETAIL_MAX_CHARS + 1);
    assert_eq!(full, raw);
}

fn collapse(s: &str) -> String {
    collapse_punctuation(&s.chars().collect::<Vec<char>>()).into_iter().collect()
}

#[test]
fn collapse_keeps_parentheses_with_content() {
    assert_eq!(collapse("see (note)"), "see (note)");
    assert_eq!(collapse("advance-goal: done"), "advance-goal: done");
    assert_eq!(collapse("x ( ) y"), "x   y");
    assert_eq!(collapse("x : y"), "x  y");
    assert_eq!(collapse("base type '   '"), "base type");
    assert_eq!(collapse("trailing:"), "trailing");
}

#[test]
fn collapse_trims_unclosed_trailing_parenthesis() {
    assert_eq!(collapse("foo)"), "foo");
    assert_eq!(collapse("foo) ;"), "foo");
    assert_eq!(collapse("a (b) c)"), "a (b) c");
    assert_eq!(collapse("x (y) z (w)"), "x (y) z (w)");
    assert_eq!(collapse("(a) b))"), "(a) b");
}

#[test]
fn detail_never_keeps_noise_phrases() {
    let noise = [
        "brain-error fallback",
        "goal-action parse failed",
        "spawn_engineer dispatched",
        "continue_skipping",
        "ooda-brain",
        "brain:",
        "Could not read Copilot config",
    ];
    for raw in [
        "advance-goal: brain-error (fallback",
        "advance-goal: brain-error : fallback",
        "brain-errorbrain: fallback ok",
        "Could not  read Copilot config",
    ] {
        let (_chip, detail, full) = render_status_and_detail(Some(raw));
        assert_eq!(full, raw);
        for n in noise {
            assert!(!detail.contains(n), "{raw:?} gave {detail:?}");
        }
    }
}

#[test]
fn rendered_detail_is_one_line() {
    let raw = "line one\nline two\n\n  spawn_engineer dispatched\r\nthird line with more words";
    let (_, detail, full) = render_status_and_detail(Some(raw));
    assert!(!detail.contains('\n'), "{detail:?}");
    assert_eq!(full, raw);
    let long = "word\n".repeat(100);
    let (_, detail, _) = render_status_and_detail(Some(&long));
    assert!(!detail.contains('\n'));
    assert!(detail.chars().count() <= DETAIL_MAX_CHARS + 1);
}
