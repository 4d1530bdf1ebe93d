//! The dashboard Chat tab's socket protocol: which session a connection
//! resumes, how an inbound frame is read, how a reply is streamed in chunks,
//! and the text of the replies to the meeting commands.
//!
//! The socket, the meeting backend and the persistence calls are the
//! caller's part; the decisions and the reply texts are made here.

use vstd::prelude::*;
use crate::agent_log::is_valid_name;
use crate::chat_store::validate_session_id;
use crate::num::{decimal, push_decimal};
use crate::text::{
    from_chars, join_path, path_join, push_str, sub_chars, to_chars, trim_chars, trim_seq,
    utf8_len, utf8_len_exceeds,
};

verus! {

/// Largest inbound chat frame, in bytes; larger frames are refused.
pub const MAX_CHAT_FRAME_BYTES: usize = 65536;

/// Characters per streamed `chunk` frame of an assistant reply.
pub const STREAM_CHUNK_CHARS: usize = 48;

/// Where the meeting system prompt lives, relative to an install or checkout.
pub const MEETING_PROMPT_PATH: &'static str = "prompt_assets/simard/meeting_system.md";

/// The home directory assumed when `HOME` is unset.
pub const DEFAULT_HOME: &'static str = "/home/azureuser";

/// Body of the 400 answered to a malformed `session_id`.
pub const INVALID_SESSION_ID_BODY: &'static str = "invalid session_id: must match ^[A-Za-z0-9_-]{1,64}$";

/// Reply to an oversized frame.
pub const FRAME_TOO_LARGE_REPLY: &'static str = "[message too large — refused]";

/// Greeting sent once a connection is ready.
pub const CONNECTED_REPLY: &'static str = "Connected to Simard. Speak naturally — /help for commands, /close to end.";

// ---------------------------------------------------------------------------
// Session selection and the meeting prompt
// ---------------------------------------------------------------------------

/// The session a connection asks to resume: none for an absent or empty
/// `session_id`, refused when it fails `^[A-Za-z0-9_-]{1,64}$`.
pub open spec fn requested_session_spec(raw: Option<Seq<char>>) -> Result<Option<Seq<char>>, ()> {
    match raw {
        None => Ok(None),
        Some(s) => if s.len() == 0 {
            Ok(None)
        } else if is_valid_name(s) {
            Ok(Some(s))
        } else {
            Err(())
        },
    }
}

/// Checks the requested session before the socket is upgraded: `Ok(None)`
/// to start a fresh session, `Ok(Some(id))` to resume `id`, `Err` (a 400
/// with `INVALID_SESSION_ID_BODY`) for a malformed id.
pub fn requested_session(raw: Option<&str>) -> (r: Result<Option<String>, &'static str>)
    ensures
        match requested_session_spec(match raw {
            Some(s) => Some(s@),
            None => None,
        }) {
            Ok(None) => r matches Ok(None),
            Ok(Some(id)) => r matches Ok(Some(s)) && s@ == id,
            Err(_) => r matches Err(e) && e@ == INVALID_SESSION_ID_BODY@,
        },
{
    match raw {
        None => Ok(None),
        Some(s) => {
            if s.is_empty() {
                Ok(None)
            } else if validate_session_id(s) {
                Ok(Some(s.to_owned()))
            } else {
                Err(INVALID_SESSION_ID_BODY)
            }
        },
    }
}

/// The places the meeting prompt is looked for, in order: next to the
/// executable (when its directory is known), in the checkout under the home
/// directory (`/home/azureuser` when unknown), and in the source tree.
pub open spec fn prompt_candidates_spec(exe_dir: Option<Seq<char>>, home: Option<Seq<char>>, manifest_dir: Seq<char>) -> Seq<Seq<char>> {
    let first = match exe_dir {
        Some(d) => seq![path_join(d, MEETING_PROMPT_PATH@)],
        None => Seq::empty(),
    };
    let h = match home {
        Some(h) => h,
        None => DEFAULT_HOME@,
    };
    first + seq![path_join(h, "src/Simard/"@ + MEETING_PROMPT_PATH@), path_join(manifest_dir, MEETING_PROMPT_PATH@)]
}

/// The candidate paths of the meeting prompt; the first readable one wins.
pub fn meeting_prompt_candidates(exe_dir: Option<&str>, home: Option<&str>, manifest_dir: &str) -> (v: Vec<String>)
    ensures
        v@.map_values(|s: String| s@) == prompt_candidates_spec(
            match exe_dir {
                Some(d) => Some(d@),
                None => None,
            },
            match home {
                Some(h) => Some(h@),
                None => None,
            },
            manifest_dir@,
        ),
{
    let rel = to_chars(MEETING_PROMPT_PATH);
    let mut v: Vec<String> = Vec::new();
    if let Some(d) = exe_dir {
        v.push(join_path(d, rel.as_slice()));
    }
    let ghost first = v@.map_values(|s: String| s@);
    let h: &str = match home {
        Some(h) => h,
        None => DEFAULT_HOME,
    };
    let mut checkout = to_chars("src/Simard/");
    crate::text::push_all(&mut checkout, rel.as_slice());
    v.push(join_path(h, checkout.as_slice()));
    v.push(join_path(manifest_dir, rel.as_slice()));
    proof {
        let expected = prompt_candidates_spec(
            match exe_dir {
                Some(d) => Some(d@),
                None => None,
            },
            match home {
                Some(h) => Some(h@),
                None => None,
            },
            manifest_dir@,
        );
        assert(v@.map_values(|s: String| s@) =~= expected);
    }
    v
}

// ---------------------------------------------------------------------------
// Inbound frames
// ---------------------------------------------------------------------------

/// What `serde_json` reads as the `content` string of a frame: the value of
/// `content` when the frame parses as a JSON object whose `content` is a
/// string, else nothing.
pub uninterp spec fn json_content_field(raw: Seq<char>) -> Option<Seq<char>>;

/// Parses the frame with `serde_json::from_str` and picks its `content`
/// string. The result is only named.
#[verifier::external_body]
fn content_field(raw: &str) -> (r: Option<String>)
    ensures
        match r {
            Some(c) => json_content_field(raw@) == Some(c@),
            None => json_content_field(raw@) is None,
        },
{
    match serde_json::from_str::<serde_json::Value>(raw) {
        Ok(serde_json::Value::Object(map)) => match map.get("content") {
            Some(serde_json::Value::String(c)) => Some(c.clone()),
            _ => None,
        },
        _ => None,
    }
}

/// The user text of a frame: the `content` of a structured frame, or the
/// bare frame text.
pub open spec fn user_text_spec(raw: Seq<char>) -> Seq<char> {
    match json_content_field(raw) {
        Some(c) => c,
        None => raw,
    }
}

/// The user text of an inbound frame: `{"content": "…"}` gives its content,
/// anything else is taken as bare text.
pub fn extract_user_text(raw: &str) -> (r: String)
    ensures
        r@ == user_text_spec(raw@),
{
    match content_field(raw) {
        Some(c) => c,
        None => raw.to_owned(),
    }
}

/// How an inbound text frame is handled.
pub enum Inbound {
    /// Over the size limit: answered with `FRAME_TOO_LARGE_REPLY`.
    TooLarge,
    /// Nothing but whitespace: ignored.
    Blank,
    /// The trimmed user text, to be parsed as a command or conversation.
    Text(String),
}

/// Reads an inbound text frame: refused when over `MAX_CHAT_FRAME_BYTES`
/// bytes, ignored when its user text is blank, else the trimmed user text.
pub fn read_inbound(raw: &str) -> (r: Inbound)
    ensures
        utf8_len(raw@) > MAX_CHAT_FRAME_BYTES ==> r is TooLarge,
        utf8_len(raw@) <= MAX_CHAT_FRAME_BYTES ==> {
            let t = trim_seq(user_text_spec(raw@));
            &&& t.len() == 0 ==> r is Blank
            &&& t.len() > 0 ==> (r matches Inbound::Text(s) && s@ == t)
        },
{
    let cs = to_chars(raw);
    assert(cs@.skip(0) =~= raw@);
    if utf8_len_exceeds(cs.as_slice(), 0, MAX_CHAT_FRAME_BYTES) {
        return Inbound::TooLarge;
    }
    let text = extract_user_text(raw);
    let t = trim_chars(to_chars(text.as_str()).as_slice());
    if t.len() == 0 {
        Inbound::Blank
    } else {
        Inbound::Text(from_chars(t.as_slice()))
    }
}

// ---------------------------------------------------------------------------
// Streaming a reply
// ---------------------------------------------------------------------------

/// The chunks of `s`: consecutive windows of `STREAM_CHUNK_CHARS`
/// characters, the last one possibly shorter.
pub open spec fn chunks_spec(s: Seq<char>) -> Seq<Seq<char>>
    decreases s.len(),
{
    if s.len() == 0 {
        Seq::empty()
    } else if s.len() <= STREAM_CHUNK_CHARS {
        seq![s]
    } else {
        seq![s.take(STREAM_CHUNK_CHARS as int)] + chunks_spec(s.skip(STREAM_CHUNK_CHARS as int))
    }
}

/// Splits a completed reply into the `chunk` frames it is streamed as.
pub fn stream_chunks(content: &str) -> (v: Vec<String>)
    ensures
        v@.map_values(|s: String| s@) == chunks_spec(content@),
{
    let cs = to_chars(content);
    let mut v: Vec<String> = Vec::new();
    let mut i: usize = 0;
    assert(cs@.skip(0) =~= cs@);
    while i < cs.len()
        invariant
            i <= cs.len(),
            cs@ == content@,
            chunks_spec(content@) == v@.map_values(|s: String| s@) + chunks_spec(cs@.skip(i as int)),
        decreases cs.len() - i,
    {
        let rest = cs.len() - i;
        let n: usize = if rest <= STREAM_CHUNK_CHARS {
            rest
        } else {
            STREAM_CHUNK_CHARS
        };
        let piece = sub_chars(cs.as_slice(), i, i + n);
        let ghost r = cs@.skip(i as int);
        let ghost before = v@.map_values(|s: String| s@);
        let s = from_chars(piece.as_slice());
        v.push(s);
        proof {
            if rest <= STREAM_CHUNK_CHARS {
                assert(piece@ =~= r);
                assert(cs@.skip(i + n) =~= Seq::<char>::empty());
                assert(chunks_spec(r) == seq![r]);
            } else {
                assert(piece@ =~= r.take(STREAM_CHUNK_CHARS as int));
                assert(r.skip(STREAM_CHUNK_CHARS as int) =~= cs@.skip(i + n));
            }
            assert(v@.map_values(|s: String| s@) =~= before.push(piece@));
            assert(before.push(piece@) + chunks_spec(cs@.skip(i + n)) =~= before + (seq![piece@]
                + chunks_spec(cs@.skip(i + n))));
        }
        i = i + n;
    }
    assert(cs@.skip(i as int) =~= Seq::<char>::empty());
    assert(v@.map_values(|s: String| s@) + Seq::<Seq<char>>::empty() =~= v@.map_values(|s: String| s@));
    v
}

/// Concatenating the chunks gives the reply back.
pub open spec fn concat(parts: Seq<Seq<char>>) -> Seq<char>
    decreases parts.len(),
{
    if parts.len() == 0 {
        Seq::empty()
    } else {
        parts[0] + concat(parts.skip(1))
    }
}

/// Streaming loses and reorders nothing: the chunks, joined, are the reply,
/// and each is non-empty and at most `STREAM_CHUNK_CHARS` long.
pub proof fn lemma_chunks_reassemble(s: Seq<char>)
    ensures
        concat(chunks_spec(s)) == s,
        forall|i: int|
            0 <= i < chunks_spec(s).len() ==> 0 < (#[trigger] chunks_spec(s)[i]).len()
                <= STREAM_CHUNK_CHARS,
    decreases s.len(),
{
    if s.len() == 0 {
        assert(s =~= Seq::<char>::empty());
    } else if s.len() <= STREAM_CHUNK_CHARS {
        let c = chunks_spec(s);
        assert(c == seq![s]);
        assert(c.skip(1) =~= Seq::<Seq<char>>::empty());
        assert(concat(c.skip(1)) == Seq::<char>::empty());
        assert(concat(c) == c[0] + concat(c.skip(1)));
        assert(s + Seq::<char>::empty() =~= s);
    } else {
        let rest = s.skip(STREAM_CHUNK_CHARS as int);
        lemma_chunks_reassemble(rest);
        let c = chunks_spec(s);
        assert(c.skip(1) =~= chunks_spec(rest));
        assert(c[0] == s.take(STREAM_CHUNK_CHARS as int));
        assert(concat(c) == c[0] + concat(c.skip(1)));
        assert(s.take(STREAM_CHUNK_CHARS as int) + rest =~= s);
        assert forall|i: int| 0 <= i < c.len() implies 0 < (#[trigger] c[i]).len() <= STREAM_CHUNK_CHARS by {
            if i > 0 {
                assert(c[i] == chunks_spec(rest)[i - 1]);
            }
        }
    }
}

// ---------------------------------------------------------------------------
// Replies to meeting commands
// ---------------------------------------------------------------------------

/// The reply once a meeting closed: its message count and summary, then the
/// bundle directory and the report path when there are any.
pub open spec fn close_recap_spec(message_count: u64, summary: Seq<char>, bundle_dir: Option<Seq<char>>, report_path: Option<Seq<char>>) -> Seq<char> {
    "Meeting closed. "@ + decimal(message_count as nat) + " messages. Summary: "@ + summary + match bundle_dir {
        Some(d) => "\nBundle: "@ + d,
        None => Seq::empty(),
    } + match report_path {
        Some(p) => "\nReport: "@ + p,
        None => Seq::empty(),
    }
}

/// The reply once a meeting closed.
pub fn close_recap(message_count: u64, summary: &str, bundle_dir: Option<&str>, report_path: Option<&str>) -> (r: String)
    ensures
        r@ == close_recap_spec(
            message_count,
            summary@,
            match bundle_dir {
                Some(d) => Some(d@),
                None => None,
            },
            match report_path {
                Some(p) => Some(p@),
                None => None,
            },
        ),
{
    let mut out: Vec<char> = Vec::new();
    push_str(&mut out, "Meeting closed. ");
    push_decimal(&mut out, message_count);
    push_str(&mut out, " messages. Summary: ");
    push_str(&mut out, summary);
    let ghost head = out@;
    if let Some(d) = bundle_dir {
        push_str(&mut out, "\nBundle: ");
        push_str(&mut out, d);
    }
    let ghost mid = out@;
    if let Some(p) = report_path {
        push_str(&mut out, "\nReport: ");
        push_str(&mut out, p);
    }
    assert(out@ =~= close_recap_spec(
        message_count,
        summary@,
        match bundle_dir {
            Some(d) => Some(d@),
            None => None,
        },
        match report_path {
            Some(p) => Some(p@),
            None => None,
        },
    ));
    from_chars(out.as_slice())
}

/// The reply to `/status`.
pub open spec fn status_info_spec(topic: Seq<char>, message_count: u64, started_at: Seq<char>, is_open: bool) -> Seq<char> {
    "Topic: "@ + topic + "\nMessages: "@ + decimal(message_count as nat) + "\nStarted: "@ + started_at
        + "\nOpen: "@ + (if is_open {
        "true"@
    } else {
        "false"@
    })
}

/// The reply to `/status`: topic, message count, start time and whether the
/// meeting is open.
pub fn status_info(topic: &str, message_count: u64, started_at: &str, is_open: bool) -> (r: String)
    ensures
        r@ == status_info_spec(topic@, message_count, started_at@, is_open),
{
    let mut out: Vec<char> = Vec::new();
    push_str(&mut out, "Topic: ");
    push_str(&mut out, topic);
    push_str(&mut out, "\nMessages: ");
    push_decimal(&mut out, message_count);
    push_str(&mut out, "\nStarted: ");
    push_str(&mut out, started_at);
    push_str(&mut out, "\nOpen: ");
    if is_open {
        push_str(&mut out, "true");
    } else {
        push_str(&mut out, "false");
    }
    from_chars(out.as_slice())
}

/// `items` joined with `, `.
pub open spec fn comma_joined(items: Seq<Seq<char>>) -> Seq<char>
    decreases items.len(),
{
    if items.len() == 0 {
        Seq::empty()
    } else if items.len() == 1 {
        items[0]
    } else {
        comma_joined(items.drop_last()) + ", "@ + items.last()
    }
}

fn push_comma_joined(out: &mut Vec<char>, items: &[String])
    ensures
        final(out)@ == old(out)@ + comma_joined(items@.map_values(|s: String| s@)),
{
    let ghost start = out@;
    let mut i: usize = 0;
    while i < items.len()
        invariant
            i <= items.len(),
            out@ == start + comma_joined(items@.map_values(|s: String| s@).take(i as int)),
        decreases items.len() - i,
    {
        let ghost t = items@.map_values(|s: String| s@).take(i + 1);
        assert(t.drop_last() =~= items@.map_values(|s: String| s@).take(i as int));
        assert(t.last() == items@[i as int]@);
        if i > 0 {
            push_str(out, ", ");
        }
        push_str(out, items[i].as_str());
        if i == 0 {
            assert(out@ =~= start + t[0]);
        } else {
            assert(out@ =~= start + (comma_joined(t.drop_last()) + ", "@ + t.last()));
        }
        i = i + 1;
    }
    assert(items@.map_values(|s: String| s@).take(items.len() as int) =~= items@.map_values(
        |s: String| s@,
    ));
}

/// The reply to `/recap`: topic, message count, start time, and the themes
/// when there are any.
pub open spec fn recap_spec(topic: Seq<char>, message_count: u64, started_at: Seq<char>, themes: Seq<Seq<char>>) -> Seq<char> {
    "── Meeting Recap ──\nTopic: "@ + topic + "\nMessages: "@ + decimal(message_count as nat)
        + "\nStarted: "@ + started_at + if themes.len() == 0 {
        Seq::empty()
    } else {
        "\nThemes: "@ + comma_joined(themes)
    }
}

/// The reply to `/recap`.
pub fn recap_text(topic: &str, message_count: u64, started_at: &str, themes: &[String]) -> (r: String)
    ensures
        r@ == recap_spec(topic@, message_count, started_at@, themes@.map_values(|s: String| s@)),
{
    let mut out: Vec<char> = Vec::new();
    push_str(&mut out, "── Meeting Recap ──\nTopic: ");
    push_str(&mut out, topic);
    push_str(&mut out, "\nMessages: ");
    push_decimal(&mut out, message_count);
    push_str(&mut out, "\nStarted: ");
    push_str(&mut out, started_at);
    if themes.len() > 0 {
        push_str(&mut out, "\nThemes: ");
        push_comma_joined(&mut out, themes);
    }
    from_chars(out.as_slice())
}

/// The reply to `/preview`: topic, message count so far, and the themes, or
/// `none yet`.
pub open spec fn preview_spec(topic: Seq<char>, message_count: u64, themes: Seq<Seq<char>>) -> Seq<char> {
    "── Handoff Preview ──\nTopic: "@ + topic + "\nMessages so far: "@ + decimal(message_count as nat)
        + "\nThemes: "@ + if themes.len() == 0 {
        "none yet"@
    } else {
        comma_joined(themes)
    }
}

/// The reply to `/preview`.
pub fn preview_text(topic: &str, message_count: u64, themes: &[String]) -> (r: String)
    ensures
        r@ == preview_spec(topic@, message_count, themes@.map_values(|s: String| s@)),
{
    let mut out: Vec<char> = Vec::new();
    push_str(&mut out, "── Handoff Preview ──\nTopic: ");
    push_str(&mut out, topic);
    push_str(&mut out, "\nMessages so far: ");
    push_decimal(&mut out, message_count);
    push_str(&mut out, "\nThemes: ");
    if themes.len() == 0 {
        push_str(&mut out, "none yet");
    } else {
        push_comma_joined(&mut out, themes);
    }
    from_chars(out.as_slice())
}

/// An open question of the meeting.
pub struct OpenQuestion {
    pub text: String,
    /// Asked explicitly with `/question`.
    pub explicit: bool,
}

/// An action item of the meeting.
pub struct ActionItem {
    pub description: String,
    pub assignee: Option<String>,
    pub deadline: Option<String>,
}

/// Numbered lines `  k. item`, one per item, numbered from 1.
pub open spec fn numbered_lines(items: Seq<Seq<char>>) -> Seq<char>
    decreases items.len(),
{
    if items.len() == 0 {
        Seq::empty()
    } else {
        numbered_lines(items.drop_last()) + "  "@ + decimal(items.len() as nat) + ". "@ + items.last()
            + "\n"@
    }
}

/// One line per open question, `  - text`, marked when explicit.
pub open spec fn question_lines(qs: Seq<OpenQuestion>) -> Seq<char>
    decreases qs.len(),
{
    if qs.len() == 0 {
        Seq::empty()
    } else {
        question_lines(qs.drop_last()) + "  - "@ + qs.last().text@ + (if qs.last().explicit {
            " *(explicit)*"@
        } else {
            Seq::empty()
        }) + "\n"@
    }
}

/// One action item: its description, the assignee and the deadline when
/// known.
pub open spec fn action_text(a: ActionItem) -> Seq<char> {
    a.description@ + match a.assignee {
        Some(w) => " [→ "@ + w@ + "]"@,
        None => Seq::empty(),
    } + match a.deadline {
        Some(d) => " ("@ + d@ + ")"@,
        None => Seq::empty(),
    }
}

/// The action items as numbered lines.
pub open spec fn action_lines(items: Seq<ActionItem>) -> Seq<char>
    decreases items.len(),
{
    if items.len() == 0 {
        Seq::empty()
    } else {
        action_lines(items.drop_last()) + "  "@ + decimal(items.len() as nat) + ". "@ + action_text(
            items.last(),
        ) + "\n"@
    }
}

/// A section body, or `  _(none)_` when it is empty.
pub open spec fn or_none(has_items: bool, lines: Seq<char>) -> Seq<char> {
    if has_items {
        lines
    } else {
        "  _(none)_\n"@
    }
}

/// The reply to `/state`: the decisions, open questions and action items
/// recorded so far.
pub open spec fn state_body_spec(decisions: Seq<Seq<char>>, questions: Seq<OpenQuestion>, actions: Seq<ActionItem>) -> Seq<char> {
    "── Decisions ──\n"@ + or_none(decisions.len() > 0, numbered_lines(decisions))
        + "\n── Open Questions ──\n"@ + or_none(questions.len() > 0, question_lines(questions))
        + "\n── Action Items ──\n"@ + or_none(actions.len() > 0, action_lines(actions))
}

fn push_numbered(out: &mut Vec<char>, items: &[String])
    ensures
        final(out)@ == old(out)@ + numbered_lines(items@.map_values(|s: String| s@)),
{
    let ghost start = out@;
    let mut i: usize = 0;
    while i < items.len()
        invariant
            i <= items.len(),
            out@ == start + numbered_lines(items@.map_values(|s: String| s@).take(i as int)),
        decreases items.len() - i,
    {
        let ghost t = items@.map_values(|s: String| s@).take(i + 1);
        assert(t.drop_last() =~= items@.map_values(|s: String| s@).take(i as int));
        assert(t.last() == items@[i as int]@);
        push_str(out, "  ");
        push_decimal(out, (i + 1) as u64);
        push_str(out, ". ");
        push_str(out, items[i].as_str());
        push_str(out, "\n");
        assert(out@ =~= start + numbered_lines(t));
        i = i + 1;
    }
    assert(items@.map_values(|s: String| s@).take(items.len() as int) =~= items@.map_values(
        |s: String| s@,
    ));
}

fn push_action_text(out: &mut Vec<char>, a: &ActionItem)
    ensures
        final(out)@ == old(out)@ + action_text(*a),
{
    let ghost start = out@;
    push_str(out, a.description.as_str());
    if let Some(w) = &a.assignee {
        push_str(out, " [→ ");
        push_str(out, w.as_str());
        push_str(out, "]");
    }
    if let Some(d) = &a.deadline {
        push_str(out, " (");
        push_str(out, d.as_str());
        push_str(out, ")");
    }
    assert(out@ =~= start + action_text(*a));
}

fn push_action_lines(out: &mut Vec<char>, actions: &[ActionItem])
    ensures
        final(out)@ == old(out)@ + action_lines(actions@),
{
    let ghost start = out@;
    let mut i: usize = 0;
    while i < actions.len()
        invariant
            i <= actions.len(),
            out@ == start + action_lines(actions@.take(i as int)),
        decreases actions.len() - i,
    {
        let ghost t = actions@.take(i + 1);
        assert(t.drop_last() =~= actions@.take(i as int));
        assert(t.last() == actions@[i as int]);
        push_str(out, "  ");
        push_decimal(out, (i + 1) as u64);
        push_str(out, ". ");
        push_action_text(out, &actions[i]);
        push_str(out, "\n");
        assert(out@ =~= start + action_lines(t));
        i = i + 1;
    }
    assert(actions@.take(actions.len() as int) =~= actions@);
}

/// The reply to `/state`.
pub fn state_body(decisions: &[String], questions: &[OpenQuestion], actions: &[ActionItem]) -> (r: String)
    ensures
        r@ == state_body_spec(decisions@.map_values(|s: String| s@), questions@, actions@),
{
    let mut out: Vec<char> = Vec::new();
    push_str(&mut out, "── Decisions ──\n");
    if decisions.len() == 0 {
        push_str(&mut out, "  _(none)_\n");
    } else {
        push_numbered(&mut out, decisions);
    }
    push_str(&mut out, "\n── Open Questions ──\n");
    if questions.len() == 0 {
        push_str(&mut out, "  _(none)_\n");
    } else {
        let ghost start = out@;
        let mut i: usize = 0;
        while i < questions.len()
            invariant
                i <= questions.len(),
                out@ == start + question_lines(questions@.take(i as int)),
            decreases questions.len() - i,
        {
            let ghost t = questions@.take(i + 1);
            assert(t.drop_last() =~= questions@.take(i as int));
            assert(t.last() == questions@[i as int]);
            push_str(&mut out, "  - ");
            push_str(&mut out, questions[i].text.as_str());
            if questions[i].explicit {
                push_str(&mut out, " *(explicit)*");
            }
            push_str(&mut out, "\n");
            assert(out@ =~= start + question_lines(t));
            i = i + 1;
        }
        assert(questions@.take(questions.len() as int) =~= questions@);
    }
    push_str(&mut out, "\n── Action Items ──\n");
    if actions.len() == 0 {
        push_str(&mut out, "  _(none)_\n");
    } else {
        push_action_lines(&mut out, actions);
    }
    from_chars(out.as_slice())
}

/// A meeting template: its name and what it is for.
pub struct TemplateInfo {
    pub name: String,
    pub description: String,
}

/// One line per template, `  name — description`.
pub open spec fn template_lines(ts: Seq<TemplateInfo>) -> Seq<char>
    decreases ts.len(),
{
    if ts.len() == 0 {
        Seq::empty()
    } else {
        template_lines(ts.drop_last()) + "  "@ + ts.last().name@ + " — "@ + ts.last().description@
            + "\n"@
    }
}

/// The reply to a bare `/template`: the available templates and the usage.
pub open spec fn template_listing_spec(ts: Seq<TemplateInfo>) -> Seq<char> {
    "Available templates:\n"@ + template_lines(ts) + "\nUsage: /template <name>"@
}

/// The reply to a bare `/template`.
pub fn template_listing(templates: &[TemplateInfo]) -> (r: String)
    ensures
        r@ == template_listing_spec(templates@),
{
    let mut out: Vec<char> = Vec::new();
    push_str(&mut out, "Available templates:\n");
    let ghost start = out@;
    let mut i: usize = 0;
    while i < templates.len()
        invariant
            i <= templates.len(),
            out@ == start + template_lines(templates@.take(i as int)),
        decreases templates.len() - i,
    {
        let ghost t = templates@.take(i + 1);
        assert(t.drop_last() =~= templates@.take(i as int));
        assert(t.last() == templates@[i as int]);
        push_str(&mut out, "  ");
        push_str(&mut out, templates[i].name.as_str());
        push_str(&mut out, " — ");
        push_str(&mut out, templates[i].description.as_str());
        push_str(&mut out, "\n");
        assert(out@ =~= start + template_lines(t));
        i = i + 1;
    }
    assert(templates@.take(templates.len() as int) =~= templates@);
    push_str(&mut out, "\nUsage: /template <name>");
    from_chars(out.as_slice())
}

/// The reply to `/template <name>` for a name that matches no template.
pub fn unknown_template_reply(name: &str) -> (r: String)
    ensures
        r@ == "Unknown template: "@ + name@ + ". Available: standup, 1on1, retro, planning"@,
{
    let mut out: Vec<char> = Vec::new();
    push_str(&mut out, "Unknown template: ");
    push_str(&mut out, name);
    push_str(&mut out, ". Available: standup, 1on1, retro, planning");
    from_chars(out.as_slice())
}


/// Law: a report path adds one line and nothing else. The recap of a
/// meeting closed with report path `p` is the recap without one, followed by
/// `\nReport: ` and `p`; so it ends with that line.
pub proof fn lemma_close_recap_report_line(
    message_count: u64,
    summary: Seq<char>,
    bundle_dir: Option<Seq<char>>,
    p: Seq<char>,
)
    ensures
        close_recap_spec(message_count, summary, bundle_dir, Some(p)) == close_recap_spec(
            message_count,
            summary,
            bundle_dir,
            None,
        ) + "\nReport: "@ + p,
        ({
            let r = close_recap_spec(message_count, summary, bundle_dir, Some(p));
            let line = "\nReport: "@ + p;
            r.len() >= line.len() && r.skip(r.len() - line.len()) == line
        }),
{
    let without = close_recap_spec(message_count, summary, bundle_dir, None);
    let line = "\nReport: "@ + p;
    let head = "Meeting closed. "@ + decimal(message_count as nat) + " messages. Summary: "@ + summary + match bundle_dir {
        Some(d) => "\nBundle: "@ + d,
        None => Seq::empty(),
    };
    assert(without =~= head);
    let r = close_recap_spec(message_count, summary, bundle_dir, Some(p));
    assert(r =~= without + line);
    assert(r.skip(r.len() - line.len()) =~= line);
}

} // verus!
