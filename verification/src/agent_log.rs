//! The per-agent terminal log stream: validation of agent names, the log
//! file each name maps to, and the tailing state machine (what to read on
//! each tick, and the lines each read completes).

use vstd::prelude::*;
use crate::text::{from_chars, join_path, path_join, push_str, to_chars};

verus! {

/// WebSocket route path for tailing per-agent stdout/stderr logs.
pub const WS_AGENT_LOG_ROUTE: &'static str = "/ws/agent_log/{agent_name}";

/// Maximum number of lines sent during the initial backfill.
pub const AGENT_LOG_BACKFILL_LINES: usize = 200;

/// Maximum bytes read per polling tick (bound on burst writes).
pub const AGENT_LOG_MAX_TICK_BYTES: u64 = 1048576;

/// Polling interval for new bytes appended to the log, in milliseconds.
pub const AGENT_LOG_TICK_MS: u64 = 200;

/// Maximum time to wait for the log file to appear, in milliseconds.
pub const AGENT_LOG_WAIT_TIMEOUT_MS: u64 = 30000;

/// Characters allowed in a single path component: `[A-Za-z0-9_-]`.
pub open spec fn is_name_char(c: char) -> bool {
    ('a' <= c && c <= 'z') || ('A' <= c && c <= 'Z') || ('0' <= c && c <= '9') || c == '_' || c
        == '-'
}

/// The allow-list `^[A-Za-z0-9_-]{1,64}$`.
pub open spec fn is_valid_name(s: Seq<char>) -> bool {
    &&& 1 <= s.len() <= 64
    &&& forall|i: int| 0 <= i < s.len() ==> is_name_char(#[trigger] s[i])
}

/// Whether `c` is in `[A-Za-z0-9_-]`.
pub fn name_char_ok(c: char) -> (b: bool)
    ensures
        b == is_name_char(c),
{
    ('a' <= c && c <= 'z') || ('A' <= c && c <= 'Z') || ('0' <= c && c <= '9') || c == '_' || c
        == '-'
}

/// Whether `s` matches `^[A-Za-z0-9_-]{1,64}$`.
pub fn matches_name_pattern(s: &str) -> (b: bool)
    ensures
        b == is_valid_name(s@),
{
    let cs = to_chars(s);
    if cs.len() == 0 || cs.len() > 64 {
        return false;
    }
    let mut i: usize = 0;
    while i < cs.len()
        invariant
            i <= cs.len(),
            cs@ == s@,
            forall|j: int| 0 <= j < i ==> is_name_char(#[trigger] cs@[j]),
        decreases cs.len() - i,
    {
        if !name_char_ok(cs[i]) {
            return false;
        }
        i = i + 1;
    }
    true
}

/// Validate `agent_name` against the allow-list `^[A-Za-z0-9_-]{1,64}$`.
///
/// Any character outside the allow-list (`/`, `\`, `.`, NUL, control
/// characters, non-ASCII) rejects the name, which keeps it confined to a
/// single path component.
pub fn sanitize_agent_name(name: &str) -> (r: Option<String>)
    ensures
        r matches Some(s) ==> s@ == name@,
        r is Some <==> is_valid_name(name@),
{
    if matches_name_pattern(name) {
        Some(name.to_owned())
    } else {
        None
    }
}

/// The per-agent log file: `<state_root>/agent_logs/<name>.log`. With a
/// name that passed `sanitize_agent_name` it is a direct child of
/// `<state_root>/agent_logs`.
pub fn agent_log_path(state_root: &str, name: &str) -> (r: String)
    ensures
        r@ == path_join(path_join(state_root@, "agent_logs"@), name@ + ".log"@),
{
    let dir = join_path(state_root, to_chars("agent_logs").as_slice());
    let mut file = to_chars(name);
    push_str(&mut file, ".log");
    join_path(dir.as_str(), file.as_slice())
}


/// Law: a name that passes the allow-list makes a log file name holding no
/// `/` and not `.` or `..`, so the log path is a direct child of
/// `<state_root>/agent_logs`.
pub proof fn lemma_log_file_is_one_component(name: Seq<char>)
    requires
        is_valid_name(name),
    ensures
        forall|i: int| 0 <= i < (name + ".log"@).len() ==> (name + ".log"@)[i] != '/',
        name + ".log"@ != "."@,
        name + ".log"@ != ".."@,
{
    reveal_strlit(".log");
    reveal_strlit(".");
    reveal_strlit("..");
    let f = name + ".log"@;
    assert forall|i: int| 0 <= i < f.len() implies f[i] != '/' by {
        if i < name.len() {
            assert(is_name_char(name[i]));
        }
    }
    assert(f.len() >= 5);
}

// ---------------------------------------------------------------------------
// Tailing the log
// ---------------------------------------------------------------------------

/// Sent when the log file never appeared.
pub const NO_LOG_NOTICE: &'static str = "[simard] no log file for this agent yet (timed out waiting). The agent may not be running.\n";

/// Sent when the log shrank below the read position.
pub const TRUNCATED_NOTICE: &'static str = "[simard] log file truncated; resetting tail position\n";

/// What to do while waiting for the log file.
pub enum WaitStep {
    /// It exists; this long was waited, in milliseconds.
    Found(u64),
    /// The wait timed out.
    GiveUp,
    /// Poll again after a tick.
    Sleep,
}

/// One poll of the wait for the log file: found when it exists, given up
/// once 30 s have passed, else poll again.
pub fn wait_step(exists: bool, elapsed_ms: u64) -> (w: WaitStep)
    ensures
        exists ==> w == WaitStep::Found(elapsed_ms),
        !exists && elapsed_ms >= AGENT_LOG_WAIT_TIMEOUT_MS ==> w is GiveUp,
        !exists && elapsed_ms < AGENT_LOG_WAIT_TIMEOUT_MS ==> w is Sleep,
{
    if exists {
        WaitStep::Found(elapsed_ms)
    } else if elapsed_ms >= AGENT_LOG_WAIT_TIMEOUT_MS {
        WaitStep::GiveUp
    } else {
        WaitStep::Sleep
    }
}

/// A backfill line as sent: the line and a line feed.
pub fn backfill_frame(line: &str) -> (s: String)
    ensures
        s@ == line@ + "\n"@,
{
    let mut out = to_chars(line);
    push_str(&mut out, "\n");
    from_chars(out.as_slice())
}

/// The notice sent when the log could not be opened.
pub fn open_failed_notice(error: &str) -> (s: String)
    ensures
        s@ == "[simard] could not open log: "@ + error@ + "\n"@,
{
    let mut out = to_chars("[simard] could not open log: ");
    push_str(&mut out, error);
    push_str(&mut out, "\n");
    from_chars(out.as_slice())
}

/// Position of the first line feed in `s`, or its length.
pub open spec fn first_newline(s: Seq<u8>) -> int
    decreases s.len(),
{
    if s.len() == 0 {
        0
    } else if s[0] == 10u8 {
        0
    } else {
        1 + first_newline(s.skip(1))
    }
}

proof fn lemma_first_newline(s: Seq<u8>, k: int)
    requires
        0 <= k <= s.len(),
        forall|j: int| 0 <= j < k ==> s[j] != 10u8,
        k == s.len() || s[k] == 10u8,
    ensures
        first_newline(s) == k,
    decreases k,
{
    if k > 0 {
        assert forall|j: int| 0 <= j < k - 1 implies s.skip(1)[j] != 10u8 by {
            assert(s.skip(1)[j] == s[j + 1]);
        }
        if k < s.len() {
            assert(s.skip(1)[k - 1] == s[k]);
        }
        lemma_first_newline(s.skip(1), k - 1);
    }
}

/// The complete lines of `s` (each with its line feed), and what follows
/// the last line feed.
pub open spec fn complete_lines(s: Seq<u8>) -> (Seq<Seq<u8>>, Seq<u8>)
    decreases s.len(),
{
    let i = first_newline(s);
    if i < 0 || i >= s.len() {
        (Seq::empty(), s)
    } else {
        let rest = complete_lines(s.skip(i + 1));
        (seq![s.take(i + 1)] + rest.0, rest.1)
    }
}

/// The tail of an agent's log: how far it was read, and the bytes of a line
/// whose line feed has not arrived yet.
pub struct LogTail {
    pos: u64,
    partial: Vec<u8>,
}

/// What one tick does: whether the log was found truncated (the notice is
/// sent), and the bytes to read (offset and count), if any.
pub struct TickPlan {
    pub truncated: bool,
    pub read: Option<(u64, u64)>,
}

impl LogTail {
    /// Bytes of the log already consumed.
    pub closed spec fn position(&self) -> u64 {
        self.pos
    }

    /// Bytes received after the last line feed.
    pub closed spec fn pending(&self) -> Seq<u8> {
        self.partial@
    }

    /// Starts tailing at `end`, the log's length when streaming begins (the
    /// backfill covered what came before).
    pub fn new(end: u64) -> (t: LogTail)
        ensures
            t.position() == end,
            t.pending() == Seq::<u8>::empty(),
    {
        LogTail { pos: end, partial: Vec::new() }
    }

    /// Plans a tick for a log now `len` bytes long: when it shrank below the
    /// position, start over from 0 dropping the pending bytes; then read what
    /// is new, at most 1 MiB.
    pub fn plan(&mut self, len: u64) -> (p: TickPlan)
        ensures
            p.truncated == (len < old(self).position()),
            p.truncated ==> final(self).position() == 0 && final(self).pending() == Seq::<u8>::empty(),
            !p.truncated ==> final(self).position() == old(self).position() && final(self).pending()
                == old(self).pending(),
            final(self).position() <= len,
            len == final(self).position() ==> p.read is None,
            len > final(self).position() ==> p.read == Some(
                (
                    final(self).position(),
                    if len - final(self).position() < AGENT_LOG_MAX_TICK_BYTES {
                        (len - final(self).position()) as u64
                    } else {
                        AGENT_LOG_MAX_TICK_BYTES
                    },
                ),
            ),
    {
        let truncated = len < self.pos;
        if truncated {
            self.pos = 0;
            self.partial = Vec::new();
        }
        let available = len - self.pos;
        let read = if available > 0 {
            let n = if available < AGENT_LOG_MAX_TICK_BYTES {
                available
            } else {
                AGENT_LOG_MAX_TICK_BYTES
            };
            Some((self.pos, n))
        } else {
            None
        };
        TickPlan { truncated, read }
    }

    /// Takes in bytes just read: the position moves past them, and every
    /// line they complete is handed back (with its line feed), in order; the
    /// bytes after the last line feed stay pending.
    pub fn absorb(&mut self, bytes: &[u8]) -> (lines: Vec<Vec<u8>>)
        requires
            old(self).position() + bytes@.len() <= u64::MAX,
        ensures
            final(self).position() == old(self).position() + bytes@.len(),
            lines.deep_view() == complete_lines(old(self).pending() + bytes@).0,
            final(self).pending() == complete_lines(old(self).pending() + bytes@).1,
    {
        let ghost all0 = self.partial@ + bytes@;
        let mut all: Vec<u8> = Vec::new();
        std::mem::swap(&mut all, &mut self.partial);
        let mut k: usize = 0;
        while k < bytes.len()
            invariant
                k <= bytes@.len(),
                all@ == old(self).partial@ + bytes@.take(k as int),
            decreases bytes@.len() - k,
        {
            all.push(bytes[k]);
            assert(all@ =~= old(self).partial@ + bytes@.take(k + 1));
            k = k + 1;
        }
        assert(bytes@.take(bytes@.len() as int) =~= bytes@);
        assert(all@ == all0);
        self.pos = self.pos + bytes.len() as u64;
        let mut lines: Vec<Vec<u8>> = Vec::new();
        let mut start: usize = 0;
        let mut i: usize = 0;
        assert(all0.skip(0) =~= all0);
        while i < all.len()
            invariant
                start <= i <= all@.len(),
                all@ == all0,
                forall|j: int| start <= j < i ==> all0[j] != 10u8,
                complete_lines(all0) == (lines.deep_view() + complete_lines(all0.skip(start as int)).0, complete_lines(
                    all0.skip(start as int),
                ).1),
            decreases all@.len() - i,
        {
            if all[i] == 10u8 {
                let ghost t = all0.skip(start as int);
                proof {
                    assert forall|j: int| 0 <= j < i - start implies t[j] != 10u8 by {
                        assert(t[j] == all0[start + j]);
                    }
                    assert(t[i - start] == all0[i as int]);
                    lemma_first_newline(t, i - start);
                    assert(t.skip(i - start + 1) =~= all0.skip(i + 1));
                }
                let mut line: Vec<u8> = Vec::new();
                let mut m: usize = start;
                while m <= i
                    invariant
                        start <= m <= i + 1,
                        i < all.len(),
                        line@ == all@.subrange(start as int, m as int),
                    decreases i + 1 - m,
                {
                    line.push(all[m]);
                    assert(line@ =~= all@.subrange(start as int, m + 1));
                    m = m + 1;
                }
                assert(line@ =~= t.take(i - start + 1));
                let ghost before = lines.deep_view();
                let ghost lv = line@;
                lines.push(line);
                assert(lines.deep_view()[before.len() as int] =~= lv);
                assert(lines.deep_view() =~= before.push(t.take(i - start + 1)));
                assert(lines.deep_view() + complete_lines(all0.skip(i + 1)).0 =~= before + (seq![
                    t.take(i - start + 1),
                ] + complete_lines(all0.skip(i + 1)).0));
                start = i + 1;
            }
            i = i + 1;
        }
        let ghost t = all0.skip(start as int);
        proof {
            assert forall|j: int| 0 <= j < t.len() implies t[j] != 10u8 by {
                assert(t[j] == all0[start + j]);
            }
            lemma_first_newline(t, t.len() as int);
            assert(lines.deep_view() + Seq::<Seq<u8>>::empty() =~= lines.deep_view());
        }
        let mut rest: Vec<u8> = Vec::new();
        let mut m: usize = start;
        while m < all.len()
            invariant
                start <= m <= all@.len(),
                rest@ == all@.subrange(start as int, m as int),
            decreases all@.len() - m,
        {
            rest.push(all[m]);
            assert(rest@ =~= all@.subrange(start as int, m + 1));
            m = m + 1;
        }
        assert(rest@ =~= t);
        self.partial = rest;
        lines
    }
}

/// The bytes of `ls` one after another.
pub open spec fn concat_all(ls: Seq<Seq<u8>>) -> Seq<u8>
    decreases ls.len(),
{
    if ls.len() == 0 {
        Seq::empty()
    } else {
        ls[0] + concat_all(ls.skip(1))
    }
}

proof fn lemma_first_newline_bound(s: Seq<u8>)
    ensures
        0 <= first_newline(s) <= s.len(),
        forall|j: int| 0 <= j < first_newline(s) ==> s[j] != 10u8,
        first_newline(s) < s.len() ==> s[first_newline(s)] == 10u8,
    decreases s.len(),
{
    if s.len() > 0 && s[0] != 10u8 {
        lemma_first_newline_bound(s.skip(1));
        assert forall|j: int| 0 <= j < first_newline(s) implies s[j] != 10u8 by {
            if j > 0 {
                assert(s[j] == s.skip(1)[j - 1]);
            }
        }
        if first_newline(s) < s.len() {
            assert(s[first_newline(s)] == s.skip(1)[first_newline(s) - 1]);
        }
    }
}

/// Law: tailing loses and repeats nothing. The complete lines, one after
/// another, then the pending bytes, are exactly the bytes taken in; each
/// line ends with its only line feed, and the pending bytes hold none.
pub proof fn lemma_tail_loses_nothing(s: Seq<u8>)
    ensures
        concat_all(complete_lines(s).0) + complete_lines(s).1 == s,
        forall|k: int|
            0 <= k < complete_lines(s).0.len() ==> {
                let l = #[trigger] complete_lines(s).0[k];
                &&& l.len() > 0
                &&& l.last() == 10u8
                &&& forall|j: int| 0 <= j < l.len() - 1 ==> l[j] != 10u8
            },
        forall|j: int| 0 <= j < complete_lines(s).1.len() ==> complete_lines(s).1[j] != 10u8,
    decreases s.len(),
{
    lemma_first_newline_bound(s);
    let i = first_newline(s);
    if i < s.len() {
        let t = s.skip(i + 1);
        lemma_tail_loses_nothing(t);
        let r = complete_lines(t);
        let ls = seq![s.take(i + 1)] + r.0;
        assert(ls.skip(1) =~= r.0);
        assert(concat_all(ls) == s.take(i + 1) + concat_all(r.0));
        assert(s.take(i + 1) + (concat_all(r.0) + r.1) =~= s);
        assert forall|k: int| 0 <= k < ls.len() implies {
            let l = #[trigger] ls[k];
            &&& l.len() > 0
            &&& l.last() == 10u8
            &&& forall|j: int| 0 <= j < l.len() - 1 ==> l[j] != 10u8
        } by {
            if k > 0 {
                assert(ls[k] == r.0[k - 1]);
            }
        }
    } else {
        assert(concat_all(Seq::<Seq<u8>>::empty()) + s =~= s);
    }
}

/// What `String::from_utf8_lossy` gives for `b`.
pub uninterp spec fn utf8_lossy(b: Seq<u8>) -> Seq<char>;

/// Decodes bytes as UTF-8 with `String::from_utf8_lossy` (invalid sequences
/// become U+FFFD). The result is only named.
#[verifier::external_body]
fn decode_lossy(b: &[u8]) -> (s: String)
    ensures
        s@ == utf8_lossy(b@),
{
    String::from_utf8_lossy(b).into_owned()
}

/// `s` without one trailing `c`.
pub open spec fn drop_trailing(s: Seq<char>, c: char) -> Seq<char> {
    if s.len() > 0 && s.last() == c {
        s.drop_last()
    } else {
        s
    }
}

/// The frame sent for a complete line: the bytes decoded, without the line
/// feed and a carriage return before it.
pub fn line_frame(line: &[u8]) -> (s: String)
    ensures
        s@ == drop_trailing(drop_trailing(utf8_lossy(line@), '\n'), '\r'),
{
    let text = decode_lossy(line);
    let mut cs = to_chars(text.as_str());
    if cs.len() > 0 && cs[cs.len() - 1] == '\n' {
        cs.pop();
    }
    if cs.len() > 0 && cs[cs.len() - 1] == '\r' {
        cs.pop();
    }
    from_chars(cs.as_slice())
}

} // verus!
