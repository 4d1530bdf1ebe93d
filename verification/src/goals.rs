//! Goal-board presentation helpers: telling prose from `key=value` debug
//! dumps, human-readable titles for memory-sourced backlog items, plain
//! labels for memory concepts, and the lifecycle breakdown of active goals.

use vstd::prelude::*;
use crate::text::{
    ascii_lower_chars, ascii_lower_seq, chars_eq, contains_chars, contains_seq, first_index,
    index_of_from, join_first_spaced, join_spaced, lemma_first_index_bound,
    lemma_utf8_len_at_least_len, split_words, to_chars, trim_end_chars, trim_end_seq,
    utf8_len, utf8_len_exceeds, utf8_prefix, utf8_truncate, utf8_width, words, from_chars,
    trim_seq, trim_chars,
};

verus! {

// ---------------------------------------------------------------------------
// Debug-dump detection
// ---------------------------------------------------------------------------

/// `w` reads as a `key=value` token: its first `=` has at least two bytes of
/// key before it and at least one character of value after it.
pub open spec fn is_kv_token(w: Seq<char>) -> bool {
    let pos = first_index(w, '=');
    &&& pos < w.len()
    &&& utf8_len(w.take(pos)) >= 2
    &&& pos + 1 < w.len()
}

/// How many of `ws` are `key=value` tokens.
pub open spec fn count_kv(ws: Seq<Seq<char>>) -> nat
    decreases ws.len(),
{
    if ws.len() == 0 {
        0
    } else {
        count_kv(ws.drop_last()) + if is_kv_token(ws.last()) {
            1nat
        } else {
            0nat
        }
    }
}

/// A string is a debug dump when three or more of its words are
/// `key=value` tokens.
pub open spec fn looks_like_debug_spec(s: Seq<char>) -> bool {
    count_kv(words(s)) >= 3
}

fn kv_token(w: &[char]) -> (b: bool)
    ensures
        b == is_kv_token(w@),
{
    let pos = index_of_from(w, '=', 0);
    assert(w@.skip(0) =~= w@);
    if pos >= w.len() || pos + 1 >= w.len() {
        return false;
    }
    if pos >= 2 {
        proof {
            lemma_utf8_len_at_least_len(w@.take(pos as int));
        }
        true
    } else if pos == 1 {
        proof {
            let p = w@.take(1);
            assert(p.skip(1) =~= Seq::<char>::empty());
            assert(utf8_len(Seq::<char>::empty()) == 0);
            assert(utf8_len(p) == utf8_width(w@[0]) + utf8_len(p.skip(1)));
        }
        char_width_at_least_two(w[0])
    } else {
        proof {
            assert(w@.take(0) =~= Seq::<char>::empty());
            assert(utf8_len(Seq::<char>::empty()) == 0);
        }
        false
    }
}

fn char_width_at_least_two(c: char) -> (b: bool)
    ensures
        b == (utf8_width(c) >= 2),
{
    (c as u32) >= 0x80
}

/// Whether `s` looks like a `key=value` debug dump rather than prose: three
/// or more of its whitespace-separated words have a key of at least two
/// bytes, an `=`, and a non-empty value.
pub fn looks_like_debug_string(s: &str) -> (b: bool)
    ensures
        b == looks_like_debug_spec(s@),
{
    let cs = to_chars(s);
    let ws = split_words(cs.as_slice());
    let mut count: usize = 0;
    let mut i: usize = 0;
    while i < ws.len()
        invariant
            i <= ws.len(),
            ws.deep_view() == words(s@),
            count == count_kv(ws.deep_view().take(i as int)),
            count <= i,
        decreases ws.len() - i,
    {
        let ghost t = ws.deep_view().take(i + 1);
        assert(t.drop_last() =~= ws.deep_view().take(i as int));
        assert(t.last() =~= ws[i as int]@);
        if kv_token(ws[i].as_slice()) {
            count = count + 1;
        }
        i = i + 1;
    }
    assert(ws.deep_view().take(ws.len() as int) =~= ws.deep_view());
    count >= 3
}

// ---------------------------------------------------------------------------
// Labels for memory-sourced backlog items
// ---------------------------------------------------------------------------

/// Plain-English source label for a memory concept, matched
/// case-insensitively against the concept's keywords, first match wins.
pub open spec fn human_source_label_spec(concept: Seq<char>) -> Seq<char> {
    let c = ascii_lower_seq(concept);
    if contains_seq(c, "goal"@) {
        "From goals"@
    } else if contains_seq(c, "action"@) {
        "From actions"@
    } else if contains_seq(c, "decision"@) {
        "From decisions"@
    } else if contains_seq(c, "meeting"@) {
        "From meeting"@
    } else if contains_seq(c, "episode"@) {
        "From past event"@
    } else {
        "From memory"@
    }
}

/// Plain-English label for a cognitive-memory concept path.
///
/// The keywords are lower-case ASCII, so only ASCII letters of the concept
/// can take part in a match; lowering those is what a full lower-casing of
/// the concept does to them.
pub fn human_source_label(concept: &str) -> (r: &'static str)
    ensures
        r@ == human_source_label_spec(concept@),
{
    let c = ascii_lower_chars(to_chars(concept).as_slice());
    let goal = to_chars("goal");
    let action = to_chars("action");
    let decision = to_chars("decision");
    let meeting = to_chars("meeting");
    let episode = to_chars("episode");
    if contains_chars(c.as_slice(), goal.as_slice()) {
        "From goals"
    } else if contains_chars(c.as_slice(), action.as_slice()) {
        "From actions"
    } else if contains_chars(c.as_slice(), decision.as_slice()) {
        "From decisions"
    } else if contains_chars(c.as_slice(), meeting.as_slice()) {
        "From meeting"
    } else if contains_chars(c.as_slice(), episode.as_slice()) {
        "From past event"
    } else {
        "From memory"
    }
}

/// Longest a backlog title runs, in bytes, before it is cut.
pub const BACKLOG_ID_MAX_BYTES: usize = 50;

/// A short human-readable title for a memory fact: its first six words when
/// it has at least two, cut to 50 bytes (then right-trimmed, with an
/// ellipsis) when longer; otherwise the concept's source label.
pub open spec fn human_backlog_id_spec(content: Seq<char>, concept: Seq<char>) -> Seq<char> {
    let ws = words(content);
    let n = if ws.len() < 6 {
        ws.len()
    } else {
        6
    };
    if n >= 2 {
        let slug = join_spaced(ws.take(n as int));
        if utf8_len(slug) > BACKLOG_ID_MAX_BYTES {
            trim_end_seq(utf8_prefix(slug, BACKLOG_ID_MAX_BYTES as nat)).push('\u{2026}')
        } else {
            slug
        }
    } else {
        human_source_label_spec(concept)
    }
}

/// A short human-readable title for a memory fact, in place of its raw node
/// id.
pub fn human_backlog_id(content: &str, concept: &str) -> (r: String)
    ensures
        r@ == human_backlog_id_spec(content@, concept@),
{
    let cs = to_chars(content);
    let ws = split_words(cs.as_slice());
    let n: usize = if ws.len() < 6 {
        ws.len()
    } else {
        6
    };
    if n >= 2 {
        let slug = join_first_spaced(&ws, n);
        assert(slug@.skip(0) =~= slug@);
        if utf8_len_exceeds(slug.as_slice(), 0, BACKLOG_ID_MAX_BYTES) {
            let cut = utf8_truncate(slug.as_slice(), BACKLOG_ID_MAX_BYTES);
            let mut t = trim_end_chars(cut.as_slice());
            t.push('\u{2026}');
            from_chars(t.as_slice())
        } else {
            from_chars(slug.as_slice())
        }
    } else {
        human_source_label(concept).to_owned()
    }
}

// ---------------------------------------------------------------------------
// Memory facts offered as backlog items
// ---------------------------------------------------------------------------

/// A memory fact is offered on the backlog unless its concept is a
/// goal-board snapshot, its trimmed content is serialized JSON (starts with
/// `{` or `[`), or its trimmed content is a debug dump.
pub open spec fn fact_listable_spec(concept: Seq<char>, content: Seq<char>) -> bool {
    let t = trim_seq(content);
    &&& !contains_seq(concept, "snapshot"@)
    &&& !contains_seq(concept, "goal-board"@)
    &&& !(t.len() > 0 && (t[0] == '{' || t[0] == '['))
    &&& !looks_like_debug_spec(t)
}

/// Whether a memory fact is offered on the backlog.
pub fn fact_listable(concept: &str, content: &str) -> (b: bool)
    ensures
        b == fact_listable_spec(concept@, content@),
{
    let cc = to_chars(concept);
    let snapshot = to_chars("snapshot");
    let board = to_chars("goal-board");
    if contains_chars(cc.as_slice(), snapshot.as_slice()) || contains_chars(
        cc.as_slice(),
        board.as_slice(),
    ) {
        return false;
    }
    let t = trim_chars(to_chars(content).as_slice());
    if t.len() > 0 && (t[0] == '{' || t[0] == '[') {
        return false;
    }
    let ts = from_chars(t.as_slice());
    !looks_like_debug_string(ts.as_str())
}

/// The backlog entry a listable memory fact becomes.
pub struct MemoryBacklogEntry {
    /// The fact's node id.
    pub id: String,
    /// Its human-readable title.
    pub display_id: String,
    /// Its plain-English source label.
    pub source: &'static str,
}

/// Whether `id` is among `seen`.
pub open spec fn id_seen(seen: Seq<String>, id: Seq<char>) -> bool {
    exists|i: int| 0 <= i < seen.len() && (#[trigger] seen[i])@ == id
}

fn contains_id(seen: &Vec<String>, id: &str) -> (b: bool)
    ensures
        b == id_seen(seen@, id@),
{
    let idc = to_chars(id);
    let mut i: usize = 0;
    while i < seen.len()
        invariant
            i <= seen.len(),
            idc@ == id@,
            forall|j: int| 0 <= j < i ==> (#[trigger] seen@[j])@ != id@,
        decreases seen.len() - i,
    {
        let sc = to_chars(seen[i].as_str());
        if chars_eq(sc.as_slice(), idc.as_slice()) {
            return true;
        }
        i = i + 1;
    }
    false
}

/// Offers one memory fact to the backlog: `None` when it is not listable or
/// its node id was already seen; otherwise its entry, and its id joins
/// `seen` so that later facts with the same id are skipped.
pub fn memory_backlog_entry(seen: &mut Vec<String>, node_id: &str, concept: &str, content: &str) -> (r:
    Option<MemoryBacklogEntry>)
    ensures
        r.is_none() <==> (!fact_listable_spec(concept@, content@) || id_seen(old(seen)@, node_id@)),
        r.is_none() ==> final(seen)@ == old(seen)@,
        r matches Some(e) ==> {
            &&& e.id@ == node_id@
            &&& e.display_id@ == human_backlog_id_spec(content@, concept@)
            &&& e.source@ == human_source_label_spec(concept@)
            &&& final(seen)@.len() == old(seen)@.len() + 1
            &&& final(seen)@.take(old(seen)@.len() as int) == old(seen)@
            &&& final(seen)@.last()@ == node_id@
        },
{
    if !fact_listable(concept, content) {
        return None;
    }
    if contains_id(seen, node_id) {
        return None;
    }
    let display_id = human_backlog_id(content, concept);
    let source = human_source_label(concept);
    seen.push(node_id.to_owned());
    assert(seen@.take(old(seen)@.len() as int) =~= old(seen)@);
    Some(MemoryBacklogEntry { id: node_id.to_owned(), display_id, source })
}

// ---------------------------------------------------------------------------
// Lifecycle breakdown of the active board
// ---------------------------------------------------------------------------

/// Lifecycle of a goal on the board.
#[derive(Debug, PartialEq, Eq)]
pub enum GoalProgress {
    Proposed,
    NotStarted,
    InProgress { percent: u8 },
    Blocked(String),
    Paused,
    Completed,
}

/// Which of the six lifecycle buckets a status falls in, in the order
/// proposed, not started, in progress, blocked, paused, completed.
pub open spec fn progress_bucket(g: GoalProgress) -> nat {
    match g {
        GoalProgress::Proposed => 0,
        GoalProgress::NotStarted => 1,
        GoalProgress::InProgress { .. } => 2,
        GoalProgress::Blocked(_) => 3,
        GoalProgress::Paused => 4,
        GoalProgress::Completed => 5,
    }
}

/// How many of `s` fall in bucket `k`.
pub open spec fn count_bucket(s: Seq<GoalProgress>, k: nat) -> nat
    decreases s.len(),
{
    if s.len() == 0 {
        0
    } else {
        count_bucket(s.drop_last(), k) + if progress_bucket(s.last()) == k {
            1nat
        } else {
            0nat
        }
    }
}

/// Per-lifecycle counts of the active goals.
#[derive(Clone, Copy, Debug, PartialEq, Eq, Structural)]
pub struct StatusBreakdown {
    pub proposed: u64,
    pub not_started: u64,
    pub in_progress: u64,
    pub blocked: u64,
    pub paused: u64,
    pub completed: u64,
}

impl StatusBreakdown {
    /// The six counts, in bucket order.
    pub open spec fn counts(self) -> Seq<u64> {
        seq![
            self.proposed,
            self.not_started,
            self.in_progress,
            self.blocked,
            self.paused,
            self.completed,
        ]
    }

    /// The count under `key`, for the six keys `proposed`, `not_started`,
    /// `in_progress`, `blocked`, `paused` and `completed`.
    pub open spec fn entry(self, key: Seq<char>) -> Option<u64> {
        if key == "proposed"@ {
            Some(self.proposed)
        } else if key == "not_started"@ {
            Some(self.not_started)
        } else if key == "in_progress"@ {
            Some(self.in_progress)
        } else if key == "blocked"@ {
            Some(self.blocked)
        } else if key == "paused"@ {
            Some(self.paused)
        } else if key == "completed"@ {
            Some(self.completed)
        } else {
            None
        }
    }

    /// The count under `key`; `None` for any other key.
    pub fn get(&self, key: &str) -> (r: Option<u64>)
        ensures
            r == self.entry(key@),
    {
        let k = to_chars(key);
        if chars_eq(k.as_slice(), to_chars("proposed").as_slice()) {
            Some(self.proposed)
        } else if chars_eq(k.as_slice(), to_chars("not_started").as_slice()) {
            Some(self.not_started)
        } else if chars_eq(k.as_slice(), to_chars("in_progress").as_slice()) {
            Some(self.in_progress)
        } else if chars_eq(k.as_slice(), to_chars("blocked").as_slice()) {
            Some(self.blocked)
        } else if chars_eq(k.as_slice(), to_chars("paused").as_slice()) {
            Some(self.paused)
        } else if chars_eq(k.as_slice(), to_chars("completed").as_slice()) {
            Some(self.completed)
        } else {
            None
        }
    }
}

proof fn lemma_buckets_sum(s: Seq<GoalProgress>)
    ensures
        count_bucket(s, 0) + count_bucket(s, 1) + count_bucket(s, 2) + count_bucket(s, 3)
            + count_bucket(s, 4) + count_bucket(s, 5) == s.len(),
    decreases s.len(),
{
    if s.len() > 0 {
        lemma_buckets_sum(s.drop_last());
    }
}

/// Counts every lifecycle variant faithfully: an `InProgress` goal at 100%
/// still counts as in progress. All six buckets are present, zero when
/// unused, and together they count every status exactly once.
pub fn active_status_breakdown(statuses: &[GoalProgress]) -> (b: StatusBreakdown)
    ensures
        forall|k: int| 0 <= k < 6 ==> #[trigger] b.counts()[k] == count_bucket(statuses@, k as nat),
        b.proposed + b.not_started + b.in_progress + b.blocked + b.paused + b.completed
            == statuses@.len(),
{
    let mut b = StatusBreakdown {
        proposed: 0,
        not_started: 0,
        in_progress: 0,
        blocked: 0,
        paused: 0,
        completed: 0,
    };
    let mut i: usize = 0;
    while i < statuses.len()
        invariant
            i <= statuses.len(),
            forall|k: int|
                0 <= k < 6 ==> #[trigger] b.counts()[k] == count_bucket(
                    statuses@.take(i as int),
                    k as nat,
                ),
        decreases statuses.len() - i,
    {
        let ghost t = statuses@.take(i + 1);
        assert(t.drop_last() =~= statuses@.take(i as int));
        assert(t.last() == statuses@[i as int]);
        proof {
            lemma_buckets_sum(statuses@.take(i as int));
            assert(b.counts()[0] + b.counts()[1] + b.counts()[2] + b.counts()[3]
                + b.counts()[4] + b.counts()[5] == i);
        }
        match &statuses[i] {
            GoalProgress::Proposed => b.proposed = b.proposed + 1,
            GoalProgress::NotStarted => b.not_started = b.not_started + 1,
            GoalProgress::InProgress { .. } => b.in_progress = b.in_progress + 1,
            GoalProgress::Blocked(_) => b.blocked = b.blocked + 1,
            GoalProgress::Paused => b.paused = b.paused + 1,
            GoalProgress::Completed => b.completed = b.completed + 1,
        }
        i = i + 1;
        assert(forall|k: int| 0 <= k < 6 ==> #[trigger] b.counts()[k] == count_bucket(t, k as nat));
    }
    assert(statuses@.take(statuses.len() as int) =~= statuses@);
    proof {
        lemma_buckets_sum(statuses@);
        assert(b.counts()[0] + b.counts()[1] + b.counts()[2] + b.counts()[3] + b.counts()[4]
            + b.counts()[5] == statuses@.len());
    }
    b
}

} // verus!
