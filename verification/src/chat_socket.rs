//! The Chat tab's socket conversation as a state machine: the caller runs
//! the socket loop, hands every outside happening to `chat_step` as an
//! event, and performs the actions it gets back, in order.
//!
//! A connection first announces itself with a `ready` frame, then sets up
//! the meeting backend, then reads frames one at a time. A frame is refused
//! when oversized, ignored when blank, and otherwise handed out to be parsed
//! as a meeting command; conversation is persisted as a user turn before the
//! agent is asked, and the agent's reply is persisted before it is streamed
//! as `chunk` frames closed by one `done` frame.

use vstd::prelude::*;
use crate::chat::{
    chunks_spec, concat, lemma_chunks_reassemble, STREAM_CHUNK_CHARS, read_inbound, stream_chunks, user_text_spec, Inbound, CONNECTED_REPLY,
    FRAME_TOO_LARGE_REPLY, MAX_CHAT_FRAME_BYTES,
};
use crate::text::{from_chars, push_str, to_chars, trim_seq, utf8_len};

verus! {

/// Reply when no agent session could be opened; the connection then ends.
pub const NO_BACKEND_REPLY: &'static str = "No agent backend available. Check SIMARD_LLM_PROVIDER and auth config.";

/// Reply when the agent panicked while answering; the conversation goes on.
pub const AGENT_PANIC_REPLY: &'static str = "[error: agent panicked — recovered, conversation continues]";

/// Where a connection stands.
#[derive(PartialEq, Eq, Structural, Clone, Copy, Debug)]
pub enum ChatState {
    /// Accepted; nothing sent yet.
    Connecting,
    /// `ready` sent; the meeting backend is being set up.
    Starting,
    /// Waiting for the next frame.
    Listening,
    /// A frame's text was handed out to be parsed as a meeting command.
    Dispatching,
    /// The agent is answering a conversation turn.
    Replying,
    /// The connection is over.
    Ended,
}

/// What happened outside since the last step.
#[derive(Clone, Debug, PartialEq, Eq)]
pub enum ChatEvent {
    /// The socket is up and bound to `session_id`.
    Connected { session_id: String },
    /// No agent session could be opened.
    NoBackend,
    /// The meeting prompt could not be loaded.
    PromptFailed { error: String },
    /// The meeting backend is up; `history_restored` when a resumed
    /// session's history was replayed into it.
    BackendReady { history_restored: bool },
    /// A text frame arrived.
    Frame { raw: String },
    /// The handed-out text parsed as conversation.
    Conversation { text: String },
    /// The handed-out text was a meeting command answered with `reply`;
    /// `closes` when it closed the meeting.
    CommandAnswered { reply: String, closes: bool },
    /// The agent answered.
    AgentReplied { content: String },
    /// The agent returned an error.
    AgentFailed { error: String },
    /// The agent panicked and was recovered.
    AgentPanicked,
    /// The task running the agent was lost.
    AgentLost { error: String },
    /// The client sent a close frame.
    CloseFrame,
    /// The socket stream ended or failed.
    SocketEnded,
}

/// What the caller is to do.
#[derive(Clone, Debug, PartialEq, Eq)]
pub enum ChatAction {
    /// Send `{"type":"ready","session_id":…,"streaming":true,"protocol_version":1}`.
    Ready { session_id: String },
    /// Send `{"role":"system","content":…}`.
    System { content: String },
    /// Send `{"role":"error","content":…}`.
    Error { content: String },
    /// Send `{"type":"restore","messages":…}` with the replayed history.
    Restore,
    /// Parse `text` as a meeting command and report back.
    Dispatch { text: String },
    /// Append `text` to the session as a user turn.
    PersistUser { text: String },
    /// Ask the agent to answer `text`.
    AskAgent { text: String },
    /// Append `text` to the session as an assistant turn.
    PersistAssistant { text: String },
    /// Send `{"type":"chunk","content":…}`.
    Chunk { content: String },
    /// Send `{"type":"done"}`.
    Done,
    /// Close the meeting backend.
    CloseBackend,
}

/// An event with its texts as character sequences.
pub enum ChatEventView {
    Connected(Seq<char>),
    NoBackend,
    PromptFailed(Seq<char>),
    BackendReady(bool),
    Frame(Seq<char>),
    Conversation(Seq<char>),
    CommandAnswered(Seq<char>, bool),
    AgentReplied(Seq<char>),
    AgentFailed(Seq<char>),
    AgentPanicked,
    AgentLost(Seq<char>),
    CloseFrame,
    SocketEnded,
}

/// An action with its texts as character sequences.
pub enum ChatActionView {
    Ready(Seq<char>),
    System(Seq<char>),
    Error(Seq<char>),
    Restore,
    Dispatch(Seq<char>),
    PersistUser(Seq<char>),
    AskAgent(Seq<char>),
    PersistAssistant(Seq<char>),
    Chunk(Seq<char>),
    Done,
    CloseBackend,
}

impl View for ChatEvent {
    type V = ChatEventView;

    open spec fn view(&self) -> ChatEventView {
        match self {
            ChatEvent::Connected { session_id } => ChatEventView::Connected(session_id@),
            ChatEvent::NoBackend => ChatEventView::NoBackend,
            ChatEvent::PromptFailed { error } => ChatEventView::PromptFailed(error@),
            ChatEvent::BackendReady { history_restored } => ChatEventView::BackendReady(*history_restored),
            ChatEvent::Frame { raw } => ChatEventView::Frame(raw@),
            ChatEvent::Conversation { text } => ChatEventView::Conversation(text@),
            ChatEvent::CommandAnswered { reply, closes } => ChatEventView::CommandAnswered(reply@, *closes),
            ChatEvent::AgentReplied { content } => ChatEventView::AgentReplied(content@),
            ChatEvent::AgentFailed { error } => ChatEventView::AgentFailed(error@),
            ChatEvent::AgentPanicked => ChatEventView::AgentPanicked,
            ChatEvent::AgentLost { error } => ChatEventView::AgentLost(error@),
            ChatEvent::CloseFrame => ChatEventView::CloseFrame,
            ChatEvent::SocketEnded => ChatEventView::SocketEnded,
        }
    }
}

impl View for ChatAction {
    type V = ChatActionView;

    open spec fn view(&self) -> ChatActionView {
        match self {
            ChatAction::Ready { session_id } => ChatActionView::Ready(session_id@),
            ChatAction::System { content } => ChatActionView::System(content@),
            ChatAction::Error { content } => ChatActionView::Error(content@),
            ChatAction::Restore => ChatActionView::Restore,
            ChatAction::Dispatch { text } => ChatActionView::Dispatch(text@),
            ChatAction::PersistUser { text } => ChatActionView::PersistUser(text@),
            ChatAction::AskAgent { text } => ChatActionView::AskAgent(text@),
            ChatAction::PersistAssistant { text } => ChatActionView::PersistAssistant(text@),
            ChatAction::Chunk { content } => ChatActionView::Chunk(content@),
            ChatAction::Done => ChatActionView::Done,
            ChatAction::CloseBackend => ChatActionView::CloseBackend,
        }
    }
}

/// The actions of a list, by their views.
pub open spec fn actions_view(v: Seq<ChatAction>) -> Seq<ChatActionView> {
    v.map_values(|a: ChatAction| a@)
}

/// One `chunk` frame per chunk, in order.
pub open spec fn chunk_frames(chunks: Seq<Seq<char>>) -> Seq<ChatActionView> {
    chunks.map_values(|c: Seq<char>| ChatActionView::Chunk(c))
}

/// How an agent reply is delivered: persisted as one assistant turn, then
/// streamed as its chunks and closed by `done`.
pub open spec fn reply_actions(content: Seq<char>) -> Seq<ChatActionView> {
    seq![ChatActionView::PersistAssistant(content)] + chunk_frames(chunks_spec(content))
        + seq![ChatActionView::Done]
}

/// One step of a connection: the next state and the actions, in the order
/// they are performed. An event that cannot happen in a state changes
/// nothing.
pub open spec fn chat_step_spec(s: ChatState, e: ChatEventView) -> (ChatState, Seq<ChatActionView>) {
    let none = Seq::<ChatActionView>::empty();
    match (s, e) {
        (ChatState::Connecting, ChatEventView::Connected(id)) => (
            ChatState::Starting,
            seq![ChatActionView::Ready(id)],
        ),
        (ChatState::Starting, ChatEventView::NoBackend) => (
            ChatState::Ended,
            seq![ChatActionView::System(NO_BACKEND_REPLY@)],
        ),
        (ChatState::Starting, ChatEventView::PromptFailed(err)) => (
            ChatState::Ended,
            seq![ChatActionView::Error(err)],
        ),
        (ChatState::Starting, ChatEventView::BackendReady(restored)) => (
            ChatState::Listening,
            if restored {
                seq![ChatActionView::Restore, ChatActionView::System(CONNECTED_REPLY@)]
            } else {
                seq![ChatActionView::System(CONNECTED_REPLY@)]
            },
        ),
        (ChatState::Listening, ChatEventView::Frame(raw)) => if utf8_len(raw) > MAX_CHAT_FRAME_BYTES {
            (ChatState::Listening, seq![ChatActionView::System(FRAME_TOO_LARGE_REPLY@)])
        } else if trim_seq(user_text_spec(raw)).len() == 0 {
            (ChatState::Listening, none)
        } else {
            (ChatState::Dispatching, seq![ChatActionView::Dispatch(trim_seq(user_text_spec(raw)))])
        },
        (ChatState::Dispatching, ChatEventView::Conversation(t)) => (
            ChatState::Replying,
            seq![ChatActionView::PersistUser(t), ChatActionView::AskAgent(t)],
        ),
        (ChatState::Dispatching, ChatEventView::CommandAnswered(reply, closes)) => (
            if closes {
                ChatState::Ended
            } else {
                ChatState::Listening
            },
            seq![ChatActionView::System(reply)],
        ),
        (ChatState::Replying, ChatEventView::AgentReplied(c)) => (ChatState::Listening, reply_actions(c)),
        (ChatState::Replying, ChatEventView::AgentFailed(err)) => (
            ChatState::Listening,
            seq![ChatActionView::System("[error: "@ + err + "]"@)],
        ),
        (ChatState::Replying, ChatEventView::AgentPanicked) => (
            ChatState::Listening,
            seq![ChatActionView::System(AGENT_PANIC_REPLY@)],
        ),
        (ChatState::Replying, ChatEventView::AgentLost(err)) => (
            ChatState::Ended,
            seq![ChatActionView::System("[internal error: "@ + err + "]"@)],
        ),
        (ChatState::Listening, ChatEventView::CloseFrame) => (
            ChatState::Ended,
            seq![ChatActionView::CloseBackend],
        ),
        (ChatState::Listening, ChatEventView::SocketEnded) => (ChatState::Ended, none),
        _ => (s, none),
    }
}

/// `prefix`, then `text`, then `suffix`.
fn framed(prefix: &str, text: &str, suffix: &str) -> (r: String)
    ensures
        r@ == prefix@ + text@ + suffix@,
{
    let mut v = to_chars(prefix);
    push_str(&mut v, text);
    push_str(&mut v, suffix);
    from_chars(v.as_slice())
}

/// The actions delivering an agent reply.
fn reply_delivery(content: String) -> (v: Vec<ChatAction>)
    ensures
        actions_view(v@) == reply_actions(content@),
{
    let ghost c = content@;
    let chunks = stream_chunks(content.as_str());
    let mut v: Vec<ChatAction> = Vec::new();
    v.push(ChatAction::PersistAssistant { text: content });
    let mut i: usize = 0;
    while i < chunks.len()
        invariant
            i <= chunks.len(),
            chunks@.map_values(|s: String| s@) == chunks_spec(c),
            actions_view(v@) == seq![ChatActionView::PersistAssistant(c)] + chunk_frames(
                chunks_spec(c).take(i as int),
            ),
        decreases chunks.len() - i,
    {
        let ghost before = v@;
        let piece = chunks[i].clone();
        v.push(ChatAction::Chunk { content: piece });
        proof {
            assert(chunks_spec(c)[i as int] == chunks@[i as int]@);
            assert(chunks_spec(c).take(i + 1) =~= chunks_spec(c).take(i as int).push(chunks@[i as int]@));
            assert(actions_view(v@) =~= actions_view(before).push(ChatActionView::Chunk(chunks@[i as int]@)));
            assert(chunk_frames(chunks_spec(c).take(i + 1)) =~= chunk_frames(chunks_spec(c).take(i as int)).push(
                ChatActionView::Chunk(chunks@[i as int]@),
            ));
        }
        i = i + 1;
    }
    let ghost before = v@;
    v.push(ChatAction::Done);
    proof {
        assert(chunks_spec(c).take(i as int) =~= chunks_spec(c));
        assert(actions_view(v@) =~= actions_view(before).push(ChatActionView::Done));
        assert(actions_view(v@) =~= reply_actions(c));
    }
    v
}

/// Advances a connection by one event: the next state and the actions to
/// perform, in order (see `chat_step_spec`).
pub fn chat_step(state: ChatState, event: ChatEvent) -> (r: (ChatState, Vec<ChatAction>))
    ensures
        (r.0, actions_view(r.1@)) == chat_step_spec(state, event@),
{
    let ghost e = event@;
    let mut v: Vec<ChatAction> = Vec::new();
    let next = match (state, event) {
        (ChatState::Connecting, ChatEvent::Connected { session_id }) => {
            v.push(ChatAction::Ready { session_id });
            ChatState::Starting
        },
        (ChatState::Starting, ChatEvent::NoBackend) => {
            v.push(ChatAction::System { content: NO_BACKEND_REPLY.to_owned() });
            ChatState::Ended
        },
        (ChatState::Starting, ChatEvent::PromptFailed { error }) => {
            v.push(ChatAction::Error { content: error });
            ChatState::Ended
        },
        (ChatState::Starting, ChatEvent::BackendReady { history_restored }) => {
            if history_restored {
                v.push(ChatAction::Restore);
            }
            v.push(ChatAction::System { content: CONNECTED_REPLY.to_owned() });
            ChatState::Listening
        },
        (ChatState::Listening, ChatEvent::Frame { raw }) => {
            match read_inbound(raw.as_str()) {
                Inbound::TooLarge => {
                    v.push(ChatAction::System { content: FRAME_TOO_LARGE_REPLY.to_owned() });
                    ChatState::Listening
                },
                Inbound::Blank => ChatState::Listening,
                Inbound::Text(t) => {
                    v.push(ChatAction::Dispatch { text: t });
                    ChatState::Dispatching
                },
            }
        },
        (ChatState::Dispatching, ChatEvent::Conversation { text }) => {
            v.push(ChatAction::PersistUser { text: text.clone() });
            v.push(ChatAction::AskAgent { text });
            ChatState::Replying
        },
        (ChatState::Dispatching, ChatEvent::CommandAnswered { reply, closes }) => {
            v.push(ChatAction::System { content: reply });
            if closes {
                ChatState::Ended
            } else {
                ChatState::Listening
            }
        },
        (ChatState::Replying, ChatEvent::AgentReplied { content }) => {
            v = reply_delivery(content);
            ChatState::Listening
        },
        (ChatState::Replying, ChatEvent::AgentFailed { error }) => {
            v.push(ChatAction::System { content: framed("[error: ", error.as_str(), "]") });
            ChatState::Listening
        },
        (ChatState::Replying, ChatEvent::AgentPanicked) => {
            v.push(ChatAction::System { content: AGENT_PANIC_REPLY.to_owned() });
            ChatState::Listening
        },
        (ChatState::Replying, ChatEvent::AgentLost { error }) => {
            v.push(ChatAction::System { content: framed("[internal error: ", error.as_str(), "]") });
            ChatState::Ended
        },
        (ChatState::Listening, ChatEvent::CloseFrame) => {
            v.push(ChatAction::CloseBackend);
            ChatState::Ended
        },
        (ChatState::Listening, ChatEvent::SocketEnded) => ChatState::Ended,
        _ => state,
    };
    proof {
        assert(actions_view(v@) =~= chat_step_spec(state, e).1);
    }
    (next, v)
}

/// The state and all actions after a run of events, steps applied in order.
pub open spec fn chat_run(s: ChatState, events: Seq<ChatEventView>) -> (ChatState, Seq<ChatActionView>)
    decreases events.len(),
{
    if events.len() == 0 {
        (s, Seq::empty())
    } else {
        let first = chat_step_spec(s, events[0]);
        let rest = chat_run(first.0, events.skip(1));
        (rest.0, first.1 + rest.1)
    }
}

/// The `ready` frame comes first: whatever events a new connection meets,
/// the first thing it sends is `ready` with its session id.
pub proof fn lemma_ready_comes_first(events: Seq<ChatEventView>)
    ensures
        chat_run(ChatState::Connecting, events).1.len() > 0 ==> (
            chat_run(ChatState::Connecting, events).1[0] is Ready),
    decreases events.len(),
{
    if events.len() > 0 {
        let first = chat_step_spec(ChatState::Connecting, events[0]);
        let rest = chat_run(first.0, events.skip(1));
        if first.1.len() == 0 {
            assert(first.0 == ChatState::Connecting);
            lemma_ready_comes_first(events.skip(1));
            assert(first.1 + rest.1 =~= rest.1);
        } else {
            assert((first.1 + rest.1)[0] == first.1[0]);
        }
    }
}

/// Nothing but `ready` is sent before the backend is set up: a new
/// connection's only step that acts is `Connected`, and it sends `ready`.
pub proof fn lemma_nothing_before_ready(e: ChatEventView)
    ensures
        e is Connected ==> chat_step_spec(ChatState::Connecting, e) == (
            ChatState::Starting,
            seq![ChatActionView::Ready(e->Connected_0)],
        ),
        !(e is Connected) ==> chat_step_spec(ChatState::Connecting, e) == (
            ChatState::Connecting,
            Seq::<ChatActionView>::empty(),
        ),
{
}

/// An oversized frame gets the too-large reply and nothing else, and the
/// connection keeps listening.
pub proof fn lemma_oversized_frame_refused(raw: Seq<char>)
    requires
        utf8_len(raw) > MAX_CHAT_FRAME_BYTES,
    ensures
        chat_step_spec(ChatState::Listening, ChatEventView::Frame(raw)) == (
            ChatState::Listening,
            seq![ChatActionView::System(FRAME_TOO_LARGE_REPLY@)],
        ),
{
}

/// A frame whose user text is blank is ignored.
pub proof fn lemma_blank_frame_ignored(raw: Seq<char>)
    requires
        utf8_len(raw) <= MAX_CHAT_FRAME_BYTES,
        trim_seq(user_text_spec(raw)).len() == 0,
    ensures
        chat_step_spec(ChatState::Listening, ChatEventView::Frame(raw)) == (
            ChatState::Listening,
            Seq::<ChatActionView>::empty(),
        ),
{
}

/// Conversation is persisted as a user turn before the agent is asked,
/// with the same text.
pub proof fn lemma_user_turn_before_agent(text: Seq<char>)
    ensures
        chat_step_spec(ChatState::Dispatching, ChatEventView::Conversation(text)) == (
            ChatState::Replying,
            seq![ChatActionView::PersistUser(text), ChatActionView::AskAgent(text)],
        ),
{
}

/// A reply is persisted before it is streamed; the streamed chunks, joined,
/// are the reply, each at most `STREAM_CHUNK_CHARS` long, and `done` comes
/// last.
pub proof fn lemma_reply_persisted_then_streamed(content: Seq<char>)
    ensures
        ({
            let (next, acts) = chat_step_spec(ChatState::Replying, ChatEventView::AgentReplied(content));
            &&& next == ChatState::Listening
            &&& acts.len() == chunks_spec(content).len() + 2
            &&& acts[0] == ChatActionView::PersistAssistant(content)
            &&& acts.last() == ChatActionView::Done
            &&& forall|i: int| 0 < i < acts.len() - 1 ==> #[trigger] acts[i] == ChatActionView::Chunk(chunks_spec(content)[i - 1])
            &&& concat(chunks_spec(content)) == content
            &&& forall|i: int| 0 <= i < chunks_spec(content).len() ==> (#[trigger] chunks_spec(content)[i]).len() <= STREAM_CHUNK_CHARS
        }),
{
    lemma_chunks_reassemble(content);
    let acts = reply_actions(content);
    let cs = chunks_spec(content);
    assert forall|i: int| 0 < i < acts.len() - 1 implies #[trigger] acts[i] == ChatActionView::Chunk(cs[i - 1]) by {
        assert(acts[i] == chunk_frames(cs)[i - 1]);
    }
}

} // verus!
