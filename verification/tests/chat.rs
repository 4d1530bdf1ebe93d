use simard_dashboard::chat::{
    close_recap, extract_user_text, meeting_prompt_candidates, preview_text, read_inbound,
    recap_text, requested_session, state_body, status_info, stream_chunks, template_listing,
    unknown_template_reply, ActionItem, Inbound, OpenQuestion, TemplateInfo,
    INVALID_SESSION_ID_BODY, MAX_CHAT_FRAME_BYTES, STREAM_CHUNK_CHARS,
};

#[test]
fn load_meeting_prompt_candidate_paths_are_reasonable() {
    let expected_suffix = "prompt_assets/simard/meeting_system.md";
    let candidates = meeting_prompt_candidates(None, None, "/build/simard");
    let build_candidate = candidates.last().expect("build-time candidate");
    assert!(
        build_candidate.ends_with(expected_suffix),
        "build-time candidate should end with {expected_suffix}"
    );
}

#[test]
fn meeting_prompt_candidates_in_order() {
    let c = meeting_prompt_candidates(Some("/opt/simard/bin"), Some("/home/me"), "/src/simard");
    assert_eq!(
        c,
        vec![
            "/opt/simard/bin/prompt_assets/simard/meeting_system.md".to_string(),
            "/home/me/src/Simard/prompt_assets/simard/meeting_system.md".to_string(),
            "/src/simard/prompt_assets/simard/meeting_system.md".to_string(),
        ]
    );
    let d = meeting_prompt_candidates(None, None, "/m");
    assert_eq!(d.len(), 2);
    assert_eq!(d[0], "/home/azureuser/src/Simard/prompt_assets/simard/meeting_system.md");
}

#[test]
fn requested_session_is_validated() {
    assert_eq!(requested_session(None), Ok(None));
    assert_eq!(requested_session(Some("")), Ok(None));
    assert_eq!(requested_session(Some("abc-123")), Ok(Some("abc-123".to_string())));
    assert_eq!(requested_session(Some("../x")), Err(INVALID_SESSION_ID_BODY));
}

#[test]
fn inbound_frames_are_read() {
    assert_eq!(extract_user_text("{\"content\":\"hi\"}"), "hi");
    assert_eq!(extract_user_text("{\"content\":5}"), "{\"content\":5}");
    assert_eq!(extract_user_text("plain"), "plain");
    assert!(matches!(read_inbound("   "), Inbound::Blank));
    assert!(matches!(read_inbound("{\"content\":\"  \"}"), Inbound::Blank));
    match read_inbound("{\"content\":\"  /help \"}") {
        Inbound::Text(t) => assert_eq!(t, "/help"),
        _ => panic!("text expected"),
    }
    let big = "x".repeat(MAX_CHAT_FRAME_BYTES + 1);
    assert!(matches!(read_inbound(&big), Inbound::TooLarge));
    let exact = "x".repeat(MAX_CHAT_FRAME_BYTES);
    assert!(matches!(read_inbound(&exact), Inbound::Text(_)));
}

#[test]
fn replies_stream_in_fixed_windows() {
    let text: String = "é".repeat(100);
    let chunks = stream_chunks(&text);
    assert_eq!(chunks.len(), 3);
    assert_eq!(chunks[0].chars().count(), STREAM_CHUNK_CHARS);
    assert_eq!(chunks[2].chars().count(), 4);
    assert_eq!(chunks.concat(), text);
    assert!(stream_chunks("").is_empty());
}

#[test]
fn command_reply_texts() {
    assert_eq!(
        close_recap(3, "done", Some("/b"), None),
        "Meeting closed. 3 messages. Summary: done\nBundle: /b"
    );
    assert_eq!(
        status_info("Topic A", 12, "2026-05-01", true),
        "Topic: Topic A\nMessages: 12\nStarted: 2026-05-01\nOpen: true"
    );
    let themes = vec!["speed".to_string(), "cost".to_string()];
    assert_eq!(
        recap_text("T", 2, "s", &themes),
        "── Meeting Recap ──\nTopic: T\nMessages: 2\nStarted: s\nThemes: speed, cost"
    );
    assert_eq!(recap_text("T", 0, "s", &[]), "── Meeting Recap ──\nTopic: T\nMessages: 0\nStarted: s");
    assert_eq!(
        preview_text("T", 1, &[]),
        "── Handoff Preview ──\nTopic: T\nMessages so far: 1\nThemes: none yet"
    );
    assert_eq!(
        unknown_template_reply("x"),
        "Unknown template: x. Available: standup, 1on1, retro, planning"
    );
    let listing = template_listing(&[TemplateInfo {
        name: "standup".to_string(),
        description: "Daily sync".to_string(),
    }]);
    assert_eq!(listing, "Available templates:\n  standup — Daily sync\n\nUsage: /template <name>");
}

#[test]
fn state_reply_lists_everything() {
    let body = state_body(
        &["Ship it".to_string(), "Hire".to_string()],
        &[OpenQuestion { text: "When?".to_string(), explicit: true }],
        &[ActionItem {
            description: "Write docs".to_string(),
            assignee: Some("ana".to_string()),
            deadline: Some("Friday".to_string()),
        }],
    );
    assert_eq!(
        body,
        "── Decisions ──\n  1. Ship it\n  2. Hire\n\n── Open Questions ──\n  - When? *(explicit)*\n\n── Action Items ──\n  1. Write docs [→ ana] (Friday)\n"
    );
    let empty = state_body(&[], &[], &[]);
    assert_eq!(
        empty,
        "── Decisions ──\n  _(none)_\n\n── Open Questions ──\n  _(none)_\n\n── Action Items ──\n  _(none)_\n"
    );
}
