use simard_dashboard::chat::{CONNECTED_REPLY, FRAME_TOO_LARGE_REPLY, MAX_CHAT_FRAME_BYTES, STREAM_CHUNK_CHARS};
use simard_dashboard::chat_socket::{
    chat_step, ChatAction, ChatEvent, ChatState, AGENT_PANIC_REPLY, NO_BACKEND_REPLY,
};

fn system(s: &str) -> ChatAction {
    ChatAction::System { content: s.to_string() }
}

#[test]
fn connection_announces_ready_first() {
    let (s, acts) = chat_step(ChatState::Connecting, ChatEvent::Connected { session_id: "019b-abc".into() });
    assert_eq!(s, ChatState::Starting);
    assert_eq!(acts, vec![ChatAction::Ready { session_id: "019b-abc".into() }]);
}

#[test]
fn nothing_is_sent_before_ready() {
    let (s, acts) = chat_step(ChatState::Connecting, ChatEvent::Frame { raw: "hello".into() });
    assert_eq!(s, ChatState::Connecting);
    assert!(acts.is_empty());
    let (s, acts) = chat_step(ChatState::Connecting, ChatEvent::AgentReplied { content: "x".into() });
    assert_eq!(s, ChatState::Connecting);
    assert!(acts.is_empty());
}

#[test]
fn missing_backend_ends_connection() {
    let (s, acts) = chat_step(ChatState::Starting, ChatEvent::NoBackend);
    assert_eq!(s, ChatState::Ended);
    assert_eq!(acts, vec![system(NO_BACKEND_REPLY)]);
}

#[test]
fn prompt_failure_is_an_error_frame() {
    let (s, acts) = chat_step(ChatState::Starting, ChatEvent::PromptFailed { error: "prompt not found".into() });
    assert_eq!(s, ChatState::Ended);
    assert_eq!(acts, vec![ChatAction::Error { content: "prompt not found".into() }]);
}

#[test]
fn ready_backend_greets_and_restores_when_resumed() {
    let (s, acts) = chat_step(ChatState::Starting, ChatEvent::BackendReady { history_restored: false });
    assert_eq!(s, ChatState::Listening);
    assert_eq!(acts, vec![system(CONNECTED_REPLY)]);
    let (s, acts) = chat_step(ChatState::Starting, ChatEvent::BackendReady { history_restored: true });
    assert_eq!(s, ChatState::Listening);
    assert_eq!(acts, vec![ChatAction::Restore, system(CONNECTED_REPLY)]);
}

#[test]
fn oversized_frame_gets_only_the_refusal() {
    let raw = "x".repeat(MAX_CHAT_FRAME_BYTES + 1);
    let (s, acts) = chat_step(ChatState::Listening, ChatEvent::Frame { raw });
    assert_eq!(s, ChatState::Listening);
    assert_eq!(acts, vec![system(FRAME_TOO_LARGE_REPLY)]);
}

#[test]
fn frame_at_the_limit_is_read() {
    let raw = "y".repeat(MAX_CHAT_FRAME_BYTES);
    let (s, acts) = chat_step(ChatState::Listening, ChatEvent::Frame { raw: raw.clone() });
    assert_eq!(s, ChatState::Dispatching);
    assert_eq!(acts, vec![ChatAction::Dispatch { text: raw }]);
}

#[test]
fn blank_frames_are_ignored() {
    let (s, acts) = chat_step(ChatState::Listening, ChatEvent::Frame { raw: "   \n\t".into() });
    assert_eq!(s, ChatState::Listening);
    assert!(acts.is_empty());
    let (s, acts) = chat_step(ChatState::Listening, ChatEvent::Frame { raw: r#"{"content":"  "}"#.into() });
    assert_eq!(s, ChatState::Listening);
    assert!(acts.is_empty());
}

#[test]
fn frame_text_is_trimmed_and_dispatched() {
    let (s, acts) = chat_step(ChatState::Listening, ChatEvent::Frame { raw: r#"{"content":"  /help "}"#.into() });
    assert_eq!(s, ChatState::Dispatching);
    assert_eq!(acts, vec![ChatAction::Dispatch { text: "/help".into() }]);
}

#[test]
fn user_turn_is_persisted_before_the_agent_call() {
    let (s, acts) = chat_step(ChatState::Dispatching, ChatEvent::Conversation { text: "how is the cycle?".into() });
    assert_eq!(s, ChatState::Replying);
    assert_eq!(
        acts,
        vec![
            ChatAction::PersistUser { text: "how is the cycle?".into() },
            ChatAction::AskAgent { text: "how is the cycle?".into() },
        ]
    );
}

#[test]
fn command_reply_is_sent_and_close_ends() {
    let (s, acts) = chat_step(ChatState::Dispatching, ChatEvent::CommandAnswered { reply: "help text".into(), closes: false });
    assert_eq!(s, ChatState::Listening);
    assert_eq!(acts, vec![system("help text")]);
    let (s, acts) = chat_step(ChatState::Dispatching, ChatEvent::CommandAnswered { reply: "Meeting closed.".into(), closes: true });
    assert_eq!(s, ChatState::Ended);
    assert_eq!(acts, vec![system("Meeting closed.")]);
}

#[test]
fn reply_is_persisted_then_streamed_then_done() {
    let content = "a".repeat(STREAM_CHUNK_CHARS + 5);
    let (s, acts) = chat_step(ChatState::Replying, ChatEvent::AgentReplied { content: content.clone() });
    assert_eq!(s, ChatState::Listening);
    assert_eq!(
        acts,
        vec![
            ChatAction::PersistAssistant { text: content.clone() },
            ChatAction::Chunk { content: "a".repeat(STREAM_CHUNK_CHARS) },
            ChatAction::Chunk { content: "a".repeat(5) },
            ChatAction::Done,
        ]
    );
}

#[test]
fn empty_reply_is_persisted_and_done() {
    let (_, acts) = chat_step(ChatState::Replying, ChatEvent::AgentReplied { content: String::new() });
    assert_eq!(acts, vec![ChatAction::PersistAssistant { text: String::new() }, ChatAction::Done]);
}

#[test]
fn agent_failures_are_reported() {
    let (s, acts) = chat_step(ChatState::Replying, ChatEvent::AgentFailed { error: "timeout".into() });
    assert_eq!(s, ChatState::Listening);
    assert_eq!(acts, vec![system("[error: timeout]")]);
    let (s, acts) = chat_step(ChatState::Replying, ChatEvent::AgentPanicked);
    assert_eq!(s, ChatState::Listening);
    assert_eq!(acts, vec![system(AGENT_PANIC_REPLY)]);
    let (s, acts) = chat_step(ChatState::Replying, ChatEvent::AgentLost { error: "join error".into() });
    assert_eq!(s, ChatState::Ended);
    assert_eq!(acts, vec![system("[internal error: join error]")]);
}

#[test]
fn close_frame_closes_the_backend() {
    let (s, acts) = chat_step(ChatState::Listening, ChatEvent::CloseFrame);
    assert_eq!(s, ChatState::Ended);
    assert_eq!(acts, vec![ChatAction::CloseBackend]);
    let (s, acts) = chat_step(ChatState::Listening, ChatEvent::SocketEnded);
    assert_eq!(s, ChatState::Ended);
    assert!(acts.is_empty());
}

#[test]
fn ended_connection_ignores_everything() {
    let (s, acts) = chat_step(ChatState::Ended, ChatEvent::Frame { raw: "hi".into() });
    assert_eq!(s, ChatState::Ended);
    assert!(acts.is_empty());
}
