use simard_dashboard::chat_store::{
    session_by_id_reply, SessionLoad,
    append_turn_at, chat_sessions_dir, derive_title, index_path, invalid_session_id_err,
    list_sessions_at, load_session_at, session_path, truncate_with_ellipsis, upsert_index,
    validate_session_id, ChatSessionIndex, ChatSessionMeta, ChatStoreError, ConversationMessage,
    Role, SCHEMA_VERSION, TITLE_MAX_CHARS,
};

fn meta(id: &str, updated_at: &str) -> ChatSessionMeta {
    ChatSessionMeta {
        id: id.to_string(),
        title: format!("title {id}"),
        created_at: "2026-01-01T00:00:00Z".to_string(),
        updated_at: updated_at.to_string(),
    }
}

fn msg(content: &str, ts: &str) -> ConversationMessage {
    ConversationMessage { role: Role::User, content: content.to_string(), timestamp: ts.to_string() }
}

#[test]
fn session_ids_are_guarded() {
    assert!(validate_session_id("0192f1a2-7b3c_x"));
    assert!(!validate_session_id(""));
    assert!(!validate_session_id("../etc"));
    assert!(!validate_session_id(&"a".repeat(65)));
    match invalid_session_id_err("../x") {
        ChatStoreError::InvalidSessionId { value, reason } => {
            assert_eq!(value, "../x");
            assert_eq!(reason, "must match ^[A-Za-z0-9_-]{1,64}$");
        }
    }
}

#[test]
fn paths_live_under_chat_sessions() {
    assert_eq!(chat_sessions_dir("/state"), "/state/chat_sessions");
    assert_eq!(session_path("/state/chat_sessions", "abc"), "/state/chat_sessions/abc.json");
    assert_eq!(index_path("/state/chat_sessions/"), "/state/chat_sessions/index.json");
    assert_eq!(load_session_at("/state", "abc").ok(), Some("/state/chat_sessions/abc.json".to_string()));
    assert!(matches!(
        load_session_at("/state", "../../etc/passwd"),
        Err(ChatStoreError::InvalidSessionId { .. })
    ));
}

#[test]
fn titles_are_cut_at_sixty_characters() {
    assert_eq!(derive_title("", "2026-05-01T10:00:00Z"), "2026-05-01T10:00:00Z");
    assert_eq!(derive_title("hello", "t"), "hello");
    let long = "x".repeat(61);
    let t = derive_title(&long, "t");
    assert_eq!(t.chars().count(), TITLE_MAX_CHARS + 1);
    assert!(t.ends_with('…'));
    assert_eq!(derive_title(&"y".repeat(60), "t"), "y".repeat(60));
    assert_eq!(truncate_with_ellipsis("日本語テキスト", 3), "日本語…");
}

#[test]
fn listing_is_newest_first_and_stable() {
    let mut index = ChatSessionIndex::new();
    index.sessions.push(meta("a", "2026-01-01T00:00:00Z"));
    index.sessions.push(meta("b", "2026-03-01T00:00:00Z"));
    index.sessions.push(meta("c", "2026-02-01T00:00:00Z"));
    index.sessions.push(meta("d", "2026-03-01T00:00:00Z"));
    let ids: Vec<String> = list_sessions_at(index).into_iter().map(|m| m.id).collect();
    assert_eq!(ids, vec!["b", "d", "c", "a"]);
    assert!(list_sessions_at(ChatSessionIndex::new()).is_empty());
}

#[test]
fn upsert_replaces_or_appends() {
    let mut index = ChatSessionIndex::new();
    upsert_index(&mut index, &meta("a", "1"));
    upsert_index(&mut index, &meta("b", "2"));
    upsert_index(&mut index, &meta("a", "3"));
    assert_eq!(index.sessions.len(), 2);
    assert_eq!(index.sessions[0].id, "a");
    assert_eq!(index.sessions[0].updated_at, "3");
    assert_eq!(index.sessions[1].id, "b");
}

#[test]
fn first_turn_creates_session_and_later_turns_extend_it() {
    let w = append_turn_at("/state", "s1", &msg("Hi there", "2026-05-01T10:00:00Z"), None, ChatSessionIndex::new())
        .ok()
        .expect("valid id");
    assert_eq!(w.session_path, "/state/chat_sessions/s1.json");
    assert_eq!(w.index_path, "/state/chat_sessions/index.json");
    assert_eq!(w.session.schema_version, SCHEMA_VERSION);
    assert_eq!(w.session.meta.title, "Hi there");
    assert_eq!(w.session.meta.created_at, "2026-05-01T10:00:00Z");
    assert_eq!(w.session.meta.updated_at, "2026-05-01T10:00:00Z");
    assert_eq!(w.session.history.len(), 1);
    assert_eq!(w.index.sessions.len(), 1);

    let reply = ConversationMessage {
        role: Role::Assistant,
        content: "Hello".to_string(),
        timestamp: "2026-05-01T10:00:05Z".to_string(),
    };
    let w2 = append_turn_at("/state", "s1", &reply, Some(w.session), w.index).ok().expect("valid");
    assert_eq!(w2.session.meta.title, "Hi there");
    assert_eq!(w2.session.meta.created_at, "2026-05-01T10:00:00Z");
    assert_eq!(w2.session.meta.updated_at, "2026-05-01T10:00:05Z");
    assert_eq!(w2.session.history.len(), 2);
    assert_eq!(w2.session.history[1].role, Role::Assistant);
    assert_eq!(w2.index.sessions.len(), 1);
    assert_eq!(w2.index.sessions[0].updated_at, "2026-05-01T10:00:05Z");
}

#[test]
fn invalid_id_writes_nothing() {
    let r = append_turn_at("/state", "bad/id", &msg("x", "t"), None, ChatSessionIndex::new());
    assert!(matches!(r, Err(ChatStoreError::InvalidSessionId { .. })));
}

#[test]
fn session_by_id_statuses() {
    assert_eq!(session_by_id_reply("../etc", SessionLoad::Found), (400, Some("invalid session id")));
    assert_eq!(session_by_id_reply("abc-1", SessionLoad::Found), (200, None));
    assert_eq!(session_by_id_reply("abc-1", SessionLoad::Absent), (404, Some("session not found")));
    assert_eq!(
        session_by_id_reply("abc-1", SessionLoad::Failed),
        (500, Some("failed to load chat session"))
    );
}
