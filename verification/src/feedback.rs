//! The "Report bug / Request feature" widget's backend: validating and
//! sanitising an operator report, composing the task handed to a new
//! workstream from the report and the captured page context, de-duplicating
//! and rate-limiting launches, and the replies the two endpoints give.
//!
//! Launching and polling the workstream is the caller's part: the functions
//! here decide what to launch and what to answer for each outcome.

use vstd::prelude::*;
use crate::chat_store::{truncate_with_ellipsis, truncate_with_ellipsis_spec};
use crate::num::{decimal, push_decimal};
use crate::text::{
    contains_seq, from_chars, json_string_literal, occurs_at, push_all, push_str, to_chars, trim_chars,
    trim_seq,
};
use std::collections::HashMap;
use std::hash::{Hash, Hasher};

verus! {

// ---------------------------------------------------------------------------
// Limits
// ---------------------------------------------------------------------------

/// Most characters accepted in a report title (longer is refused).
pub const MAX_TITLE_LEN: usize = 200;

/// Most characters accepted in a report description (longer is refused).
pub const MAX_DESCRIPTION_LEN: usize = 5000;

/// Most characters of captured page state carried into the task (cut).
pub const MAX_STATE_LEN: usize = 16384;

/// Most characters of the serialised `identifiers` object kept (cut).
pub const MAX_IDENTIFIERS_LEN: usize = 4096;

/// An identical report filed again within this many seconds is a duplicate.
pub const DEDUP_WINDOW_SECS: u64 = 30;

/// The de-duplication window in nanoseconds, the unit of the times given to
/// `FeedbackDedup`.
pub const DEDUP_WINDOW_NANOS: u64 = 30000000000;

/// Most workstreams launched per window.
pub const MAX_FEEDBACK_LAUNCHES_PER_WINDOW: usize = 5;

// ---------------------------------------------------------------------------
// Report kind
// ---------------------------------------------------------------------------

/// What the operator is reporting.
#[derive(Clone, Copy, Debug, PartialEq, Eq, Structural)]
pub enum FeedbackKind {
    Bug,
    Feature,
}

impl FeedbackKind {
    /// The marker opening the composed task.
    pub open spec fn marker_spec(self) -> Seq<char> {
        match self {
            FeedbackKind::Bug => "[BUG]"@,
            FeedbackKind::Feature => "[FEATURE]"@,
        }
    }

    /// The marker opening the composed task: `[BUG]` or `[FEATURE]`.
    pub fn marker(self) -> (r: &'static str)
        ensures
            r@ == self.marker_spec(),
    {
        match self {
            FeedbackKind::Bug => "[BUG]",
            FeedbackKind::Feature => "[FEATURE]",
        }
    }

    /// The kind named by a wire value, trimmed: exactly `bug` or `feature`.
    pub open spec fn parse_spec(raw: Seq<char>) -> Option<FeedbackKind> {
        let t = trim_seq(raw);
        if t == "bug"@ {
            Some(FeedbackKind::Bug)
        } else if t == "feature"@ {
            Some(FeedbackKind::Feature)
        } else {
            None
        }
    }

    /// Parses the wire value, accepting exactly `bug` or `feature` once
    /// trimmed.
    pub fn parse(raw: &str) -> (r: Option<FeedbackKind>)
        ensures
            r == Self::parse_spec(raw@),
    {
        let t = trim_chars(to_chars(raw).as_slice());
        if crate::text::chars_eq(t.as_slice(), to_chars("bug").as_slice()) {
            Some(FeedbackKind::Bug)
        } else if crate::text::chars_eq(t.as_slice(), to_chars("feature").as_slice()) {
            Some(FeedbackKind::Feature)
        } else {
            None
        }
    }
}

// ---------------------------------------------------------------------------
// Sanitising
// ---------------------------------------------------------------------------

/// A control character (Unicode category Cc: U+0000 to U+001F and U+007F to
/// U+009F), as `char::is_control` defines it.
pub open spec fn is_control(c: char) -> bool {
    (c as u32) <= 0x1f || (0x7f <= (c as u32) && (c as u32) <= 0x9f)
}

/// Whether `c` survives control-stripping: it is no control character, or it
/// is a newline or tab and those are kept.
pub open spec fn keeps(c: char, keep_newlines: bool) -> bool {
    !is_control(c) || (keep_newlines && (c == '\n' || c == '\t'))
}

/// `s` without its control characters (newlines and tabs kept when asked).
pub open spec fn strip_control_spec(s: Seq<char>, keep_newlines: bool) -> Seq<char>
    decreases s.len(),
{
    if s.len() == 0 {
        s
    } else if keeps(s.last(), keep_newlines) {
        strip_control_spec(s.drop_last(), keep_newlines).push(s.last())
    } else {
        strip_control_spec(s.drop_last(), keep_newlines)
    }
}

/// Strips control characters; `keep_newlines` keeps `\n` and `\t` for
/// multi-line text.
pub fn strip_control(s: &str, keep_newlines: bool) -> (r: String)
    ensures
        r@ == strip_control_spec(s@, keep_newlines),
{
    let cs = to_chars(s);
    let mut out: Vec<char> = Vec::new();
    let mut i: usize = 0;
    while i < cs.len()
        invariant
            i <= cs.len(),
            cs@ == s@,
            out@ == strip_control_spec(cs@.take(i as int), keep_newlines),
        decreases cs.len() - i,
    {
        let c = cs[i];
        let u = c as u32;
        let control = u <= 0x1f || (0x7f <= u && u <= 0x9f);
        assert(cs@.take(i + 1).drop_last() =~= cs@.take(i as int));
        assert(cs@.take(i + 1).last() == c);
        if !control || (keep_newlines && (c == '\n' || c == '\t')) {
            out.push(c);
        }
        i = i + 1;
    }
    assert(cs@.take(cs.len() as int) =~= cs@);
    from_chars(out.as_slice())
}

/// `s` cut to `max` characters, with `…` appended when it was longer.
pub fn truncate_chars(s: &str, max: usize) -> (r: String)
    ensures
        r@ == truncate_with_ellipsis_spec(s@, max as nat),
{
    truncate_with_ellipsis(s, max)
}

// ---------------------------------------------------------------------------
// Outside calls
// ---------------------------------------------------------------------------

/// What `DefaultHasher` (created with `new`, so with fixed keys) finishes
/// with after hashing the marker, the title and the description as `str`s.
pub uninterp spec fn report_hash_of(marker: Seq<char>, title: Seq<char>, description: Seq<char>) -> u64;

/// Hashes the report identity with `std::collections::hash_map::DefaultHasher`:
/// the kind's marker, the title and the description in turn, each as a
/// `str`. The result is only named.
#[verifier::external_body]
pub fn report_hash(marker: &str, title: &str, description: &str) -> (r: u64)
    ensures
        r == report_hash_of(marker@, title@, description@),
{
    let mut h = std::collections::hash_map::DefaultHasher::new();
    marker.hash(&mut h);
    title.hash(&mut h);
    description.hash(&mut h);
    h.finish()
}

/// Writes a string as a JSON string literal with `serde_json::to_string`
/// (quoted and escaped as `json_string_literal` states).
#[verifier::external_body]
fn json_quote(s: &str) -> (r: String)
    ensures
        r@ == json_string_literal(s@),
{
    serde_json::to_string(s).unwrap_or_default()
}

// ---------------------------------------------------------------------------
// Parsing and validating a submission
// ---------------------------------------------------------------------------

/// The `report` object of a submission: each field present when it is a
/// string.
pub struct ReportFields {
    pub kind: Option<String>,
    pub title: Option<String>,
    pub description: Option<String>,
}

/// The `context` object of a submission: each field present when it is a
/// string; `identifiers` is the serialised text of the `identifiers` value
/// when that is a JSON object.
pub struct ContextFields {
    pub page: Option<String>,
    pub state: Option<String>,
    pub timestamp: Option<String>,
    pub identifiers: Option<String>,
}

/// A submission: the `report` (absent when the body has none) and the
/// `context`.
pub struct FeedbackRequest {
    pub report: Option<ReportFields>,
    pub context: ContextFields,
}

/// A validated, sanitised report.
pub struct FeedbackReport {
    pub kind: FeedbackKind,
    pub title: String,
    pub description: String,
}

/// The captured `identifiers` object, bounded in size.
pub enum Identifiers {
    /// The object, whose serialised text is within the bound.
    Kept(String),
    /// `{"truncated": <text>}` in place of an object whose text was too long.
    Truncated(String),
    /// `{}`, for a value that was no object.
    Empty,
}

/// The sanitised page context.
pub struct FeedbackContext {
    pub page: String,
    pub state: String,
    pub timestamp: String,
    pub identifiers: Identifiers,
}

/// A string field's value, empty when absent.
pub open spec fn field(f: Option<String>) -> Seq<char> {
    match f {
        Some(s) => s@,
        None => Seq::empty(),
    }
}

fn field_str(f: &Option<String>) -> (r: &str)
    ensures
        r@ == field(*f),
{
    match f {
        Some(s) => s.as_str(),
        None => {
            proof {
                reveal_strlit("");
            }
            ""
        },
    }
}

/// The title as validated: control characters stripped, then trimmed.
pub open spec fn clean_title(r: ReportFields) -> Seq<char> {
    trim_seq(strip_control_spec(field(r.title), false))
}

/// The description as validated: control characters but newlines and tabs
/// stripped (not trimmed).
pub open spec fn clean_description(r: ReportFields) -> Seq<char> {
    strip_control_spec(field(r.description), true)
}

/// Why a submission is refused, checked in this order; `None` when it is
/// accepted.
pub open spec fn rejection(req: FeedbackRequest) -> Option<Seq<char>> {
    match req.report {
        None => Some("invalid report"@),
        Some(r) => {
            let kind = match r.kind {
                Some(k) => FeedbackKind::parse_spec(k@),
                None => None,
            };
            if kind is None {
                Some("invalid type"@)
            } else if clean_title(r).len() == 0 {
                Some("title required"@)
            } else if clean_title(r).len() > MAX_TITLE_LEN {
                Some("title too long"@)
            } else if trim_seq(clean_description(r)).len() == 0 {
                Some("description required"@)
            } else if clean_description(r).len() > MAX_DESCRIPTION_LEN {
                Some("description too long"@)
            } else {
                None
            }
        },
    }
}

/// The identifiers kept: an object's text within the bound as is, a longer
/// one cut, anything else empty.
pub open spec fn bound_identifiers_spec(serialized: Option<String>) -> (u8, Seq<char>) {
    match serialized {
        Some(s) => if s@.len() <= MAX_IDENTIFIERS_LEN {
            (0, s@)
        } else {
            (1, truncate_with_ellipsis_spec(s@, MAX_IDENTIFIERS_LEN as nat))
        },
        None => (2, Seq::empty()),
    }
}

/// The tag and text of `i`, in the form of `bound_identifiers_spec`.
pub open spec fn identifiers_view(i: Identifiers) -> (u8, Seq<char>) {
    match i {
        Identifiers::Kept(s) => (0, s@),
        Identifiers::Truncated(s) => (1, s@),
        Identifiers::Empty => (2, Seq::empty()),
    }
}

/// Bounds the serialised `identifiers` object (`None` when the value was no
/// object).
pub fn bound_identifiers(serialized: &Option<String>) -> (r: Identifiers)
    ensures
        identifiers_view(r) == bound_identifiers_spec(*serialized),
{
    match serialized {
        Some(s) => {
            let cs = to_chars(s.as_str());
            if cs.len() <= MAX_IDENTIFIERS_LEN {
                Identifiers::Kept(s.clone())
            } else {
                Identifiers::Truncated(truncate_chars(s.as_str(), MAX_IDENTIFIERS_LEN))
            }
        },
        None => Identifiers::Empty,
    }
}

fn char_count(s: &str) -> (n: usize)
    ensures
        n == s@.len(),
{
    to_chars(s).len()
}

/// `report` and `context` are what a valid submission `req` parses to:
/// the kind named, title trimmed and description as sent (both without
/// control characters), page and timestamp trimmed and cut to 200
/// characters, state cut to 16384, identifiers bounded.
pub open spec fn parsed_as(req: FeedbackRequest, report: FeedbackReport, context: FeedbackContext) -> bool {
    let rf = req.report->0;
    &&& Some(report.kind) == FeedbackKind::parse_spec(rf.kind->0@)
    &&& report.title@ == clean_title(rf)
    &&& report.description@ == clean_description(rf)
    &&& context.page@ == truncate_with_ellipsis_spec(
        trim_seq(strip_control_spec(field(req.context.page), false)),
        MAX_TITLE_LEN as nat,
    )
    &&& context.state@ == truncate_with_ellipsis_spec(
        strip_control_spec(field(req.context.state), true),
        MAX_STATE_LEN as nat,
    )
    &&& context.timestamp@ == truncate_with_ellipsis_spec(
        trim_seq(strip_control_spec(field(req.context.timestamp), false)),
        MAX_TITLE_LEN as nat,
    )
    &&& identifiers_view(context.identifiers) == bound_identifiers_spec(
        req.context.identifiers,
    )
}

/// Parses, validates and sanitises a submission. Refused, with the reason,
/// exactly when `rejection` gives one; otherwise the report (title trimmed,
/// description as sent, both without control characters) and the context
/// (page and timestamp trimmed and cut to 200 characters, state cut to
/// 16384, identifiers bounded), never refused for their size.
pub fn parse_body(req: &FeedbackRequest) -> (r: Result<(FeedbackReport, FeedbackContext), &'static str>)
    ensures
        match rejection(*req) {
            Some(reason) => r matches Err(e) && e@ == reason,
            None => r matches Ok((report, context)) && parsed_as(*req, report, context),
        },
{
    let report = match &req.report {
        None => return Err("invalid report"),
        Some(r) => r,
    };
    let kind = match &report.kind {
        Some(k) => FeedbackKind::parse(k.as_str()),
        None => None,
    };
    let kind = match kind {
        Some(k) => k,
        None => return Err("invalid type"),
    };
    let stripped = strip_control(field_str(&report.title), false);
    let title = from_chars(trim_chars(to_chars(stripped.as_str()).as_slice()).as_slice());
    let title_len = char_count(title.as_str());
    if title_len == 0 {
        return Err("title required");
    }
    if title_len > MAX_TITLE_LEN {
        return Err("title too long");
    }
    let description = strip_control(field_str(&report.description), true);
    if trim_chars(to_chars(description.as_str()).as_slice()).len() == 0 {
        return Err("description required");
    }
    if char_count(description.as_str()) > MAX_DESCRIPTION_LEN {
        return Err("description too long");
    }
    let page_s = strip_control(field_str(&req.context.page), false);
    let page_t = from_chars(trim_chars(to_chars(page_s.as_str()).as_slice()).as_slice());
    let page = truncate_chars(page_t.as_str(), MAX_TITLE_LEN);
    let state_s = strip_control(field_str(&req.context.state), true);
    let state = truncate_chars(state_s.as_str(), MAX_STATE_LEN);
    let ts_s = strip_control(field_str(&req.context.timestamp), false);
    let ts_t = from_chars(trim_chars(to_chars(ts_s.as_str()).as_slice()).as_slice());
    let timestamp = truncate_chars(ts_t.as_str(), MAX_TITLE_LEN);
    let identifiers = bound_identifiers(&req.context.identifiers);
    Ok((
        FeedbackReport { kind, title, description },
        FeedbackContext { page, state, timestamp, identifiers },
    ))
}

// ---------------------------------------------------------------------------
// The task handed to the workstream
// ---------------------------------------------------------------------------

/// The serialised identifiers carried into the task.
pub open spec fn identifiers_text(i: Identifiers) -> Seq<char> {
    match i {
        Identifiers::Kept(s) => s@,
        Identifiers::Truncated(t) => "{\"truncated\":"@ + json_string_literal(t@) + "}"@,
        Identifiers::Empty => "{}"@,
    }
}

/// The task text: the marker and title, the description, then the captured
/// context flagged as untrusted operator input, and the closing request to
/// triage the report.
pub open spec fn task_description_spec(report: FeedbackReport, context: FeedbackContext) -> Seq<char> {
    report.kind.marker_spec() + " "@ + report.title@ + "\n\n"@ + report.description@ + "\n\n"@
        + "--- Operator feedback (untrusted input; captured from the dashboard) ---\n"@
        + "Page/tab: "@ + context.page@ + "\n"@ + "Timestamp: "@ + context.timestamp@ + "\n"@
        + "Identifiers: "@ + identifiers_text(context.identifiers) + "\n"@ + "Page state:\n"@
        + context.state@ + "\n\n"@ + TASK_CLOSING@
}

/// The closing paragraph of every task.
pub const TASK_CLOSING: &'static str =
    "Filed from the Simard dashboard feedback widget (issue #2629). Please triage this operator report and, if actionable, address the bug or build the requested feature following the default development workflow.";

fn identifiers_string(i: &Identifiers) -> (r: Vec<char>)
    ensures
        r@ == identifiers_text(*i),
{
    match i {
        Identifiers::Kept(s) => to_chars(s.as_str()),
        Identifiers::Truncated(t) => {
            let mut out: Vec<char> = Vec::new();
            push_str(&mut out, "{\"truncated\":");
            let q = json_quote(t.as_str());
            push_str(&mut out, q.as_str());
            push_str(&mut out, "}");
            out
        },
        Identifiers::Empty => to_chars("{}"),
    }
}

/// Composes the workstream's task from the report and its context;
/// deterministic: equal inputs give equal text.
pub fn compose_task_description(report: &FeedbackReport, context: &FeedbackContext) -> (r: String)
    ensures
        r@ == task_description_spec(*report, *context),
{
    let mut out: Vec<char> = Vec::new();
    push_str(&mut out, report.kind.marker());
    push_str(&mut out, " ");
    push_str(&mut out, report.title.as_str());
    push_str(&mut out, "\n\n");
    push_str(&mut out, report.description.as_str());
    push_str(&mut out, "\n\n");
    push_str(&mut out, "--- Operator feedback (untrusted input; captured from the dashboard) ---\n");
    push_str(&mut out, "Page/tab: ");
    push_str(&mut out, context.page.as_str());
    push_str(&mut out, "\n");
    push_str(&mut out, "Timestamp: ");
    push_str(&mut out, context.timestamp.as_str());
    push_str(&mut out, "\n");
    push_str(&mut out, "Identifiers: ");
    let ids = identifiers_string(&context.identifiers);
    push_all(&mut out, ids.as_slice());
    push_str(&mut out, "\n");
    push_str(&mut out, "Page state:\n");
    push_str(&mut out, context.state.as_str());
    push_str(&mut out, "\n\n");
    push_str(&mut out, TASK_CLOSING);
    from_chars(out.as_slice())
}

// ---------------------------------------------------------------------------
// De-duplication and rate limiting
// ---------------------------------------------------------------------------

/// `t` lies within the window before `now` (a time after `now` counts as
/// no time ago).
pub open spec fn in_window(now: u64, t: u64) -> bool {
    (if now >= t {
        now - t
    } else {
        0
    }) < DEDUP_WINDOW_NANOS
}

/// The entries of `m` recorded within the window before `now`.
pub open spec fn fresh_entries(m: Map<u64, u64>, now: u64) -> Map<u64, u64> {
    Map::new(|k: u64| m.contains_key(k) && in_window(now, m[k]), |k: u64| m[k])
}

/// The times of `s` within the window before `now`, in order.
pub open spec fn fresh_times(s: Seq<u64>, now: u64) -> Seq<u64>
    decreases s.len(),
{
    if s.len() == 0 {
        s
    } else if in_window(now, s.last()) {
        fresh_times(s.drop_last(), now).push(s.last())
    } else {
        fresh_times(s.drop_last(), now)
    }
}

/// The verdict on a report about to launch.
#[derive(Clone, Copy, Debug, PartialEq, Eq, Structural)]
pub enum Verdict {
    /// May launch.
    Allowed,
    /// The same report was accepted within the window.
    Duplicate,
    /// The window's launch cap is reached.
    RateLimited,
}

/// Reports accepted recently (report hash to time accepted) and the times
/// of recent launches. Times are nanoseconds on a monotonic clock.
pub struct FeedbackDedup {
    recent: HashMap<u64, u64>,
    launches: Vec<u64>,
}

impl FeedbackDedup {
    /// The accepted reports: report hash to time accepted.
    pub closed spec fn recent(&self) -> Map<u64, u64> {
        self.recent@
    }

    /// The launch times.
    pub closed spec fn launches(&self) -> Seq<u64> {
        self.launches@
    }

    /// Nothing recorded.
    pub fn new() -> (r: FeedbackDedup)
        ensures
            r.recent() == Map::<u64, u64>::empty(),
            r.launches().len() == 0,
    {
        FeedbackDedup { recent: HashMap::new(), launches: Vec::new() }
    }

    /// Forgets what fell out of the window before `now`, then judges report
    /// `hash`: a duplicate when it was accepted within the window, else rate
    /// limited when the window already holds the cap of launches, else free
    /// to launch. Nothing is recorded here.
    pub fn evaluate(&mut self, hash: u64, now: u64) -> (v: Verdict)
        ensures
            final(self).recent() == fresh_entries(old(self).recent(), now),
            final(self).launches() == fresh_times(old(self).launches(), now),
            v == verdict_of(*final(self), hash),
    {
        broadcast use vstd::std_specs::hash::group_hash_axioms;

        let ghost m = self.recent@;
        let mut kept: HashMap<u64, u64> = HashMap::new();
        let ghost mut count: int = 0;
        for pair in it: self.recent.iter()
            invariant
                m == self.recent@,
                count == it.index(),
                it.seq().len() == m.dom().len(),
                count == m.dom().len() ==> forall|k: u64|
                    #[trigger] m.contains_key(k) && in_window(now, m[k]) ==> kept@.contains_key(k),
                forall|k: u64| #[trigger] kept@.contains_key(k) ==> m.contains_key(k) && kept@[k] == m[k]
                    && in_window(now, m[k]),
                forall|i: int|
                    0 <= i < it.index() && in_window(now, *(#[trigger] it.seq()[i]).1) ==> kept@.contains_key(
                        *it.seq()[i].0,
                    ),
                forall|i: int| 0 <= i < it.seq().len() ==> m.contains_key(*(#[trigger] it.seq()[i]).0) && m[*it.seq()[i].0] == *it.seq()[i].1,
                forall|k: u64| #[trigger] m.contains_key(k) ==> it.seq().contains((&k, &m[k])),
        {
            let (k, t) = pair;
            let age: u64 = if now >= *t {
                now - *t
            } else {
                0
            };
            if age < DEDUP_WINDOW_NANOS {
                kept.insert(*k, *t);
            }
            proof {
                count = count + 1;
                if count == m.dom().len() {
                    assert forall|k2: u64| #[trigger] m.contains_key(k2) && in_window(now, m[k2]) implies kept@.contains_key(k2) by {
                        let i = choose|i: int| 0 <= i < it.seq().len() && it.seq()[i] == (&k2, &m[k2]);
                        assert(in_window(now, *it.seq()[i].1));
                    }
                }
            }
        }
        proof {
            assert(count == m.dom().len());
            assert(kept@ =~= fresh_entries(m, now));
        }
        let mut times: Vec<u64> = Vec::new();
        let mut j: usize = 0;
        while j < self.launches.len()
            invariant
                j <= self.launches.len(),
                self.launches@ == old(self).launches@,
                times@ == fresh_times(self.launches@.take(j as int), now),
            decreases self.launches.len() - j,
        {
            let t = self.launches[j];
            assert(self.launches@.take(j + 1).drop_last() =~= self.launches@.take(j as int));
            let age: u64 = if now >= t {
                now - t
            } else {
                0
            };
            if age < DEDUP_WINDOW_NANOS {
                times.push(t);
            }
            j = j + 1;
        }
        assert(self.launches@.take(self.launches.len() as int) =~= self.launches@);
        let dup = kept.contains_key(&hash);
        let full = times.len() >= MAX_FEEDBACK_LAUNCHES_PER_WINDOW;
        self.recent = kept;
        self.launches = times;
        if dup {
            Verdict::Duplicate
        } else if full {
            Verdict::RateLimited
        } else {
            Verdict::Allowed
        }
    }

    /// Records an accepted launch of report `hash` at `now`: the report is
    /// keyed to time `now` (added, or its time replaced), and a launch at
    /// `now` is counted.
    pub fn record(&mut self, hash: u64, now: u64)
        ensures
            final(self).recent() == old(self).recent().insert(hash, now),
            final(self).launches() == old(self).launches().push(now),
    {
        broadcast use vstd::std_specs::hash::group_hash_axioms;

        self.recent.insert(hash, now);
        self.launches.push(now);
    }
}

// ---------------------------------------------------------------------------
// Replies
// ---------------------------------------------------------------------------

/// What to do with a submission before any launch.
pub enum FeedbackStep {
    /// 400 with the reason.
    Reject(&'static str),
    /// 429 with `duplicate` or `busy`.
    Throttle(&'static str),
    /// Start a workstream on `task_description`; `hash` keys the report.
    Launch { hash: u64, task_description: String },
}

/// The verdict `evaluate` gives report `hash` against the state `d` it
/// leaves: a duplicate when the report was accepted within the window, else
/// rate limited when the window holds the cap of launches, else allowed.
pub open spec fn verdict_of(d: FeedbackDedup, hash: u64) -> Verdict {
    if d.recent().contains_key(hash) {
        Verdict::Duplicate
    } else if d.launches().len() >= MAX_FEEDBACK_LAUNCHES_PER_WINDOW {
        Verdict::RateLimited
    } else {
        Verdict::Allowed
    }
}

/// The step for the valid submission `report`/`context` once `d` is the
/// purged state: `duplicate` or `busy` by the verdict on the report's hash,
/// else a launch carrying that hash and the composed task.
pub open spec fn planned(s: FeedbackStep, d: FeedbackDedup, report: FeedbackReport, context: FeedbackContext) -> bool {
    let h = report_hash_of(report.kind.marker_spec(), report.title@, report.description@);
    match verdict_of(d, h) {
        Verdict::Duplicate => s matches FeedbackStep::Throttle(e) && e@ == "duplicate"@,
        Verdict::RateLimited => s matches FeedbackStep::Throttle(e) && e@ == "busy"@,
        Verdict::Allowed => s matches FeedbackStep::Launch { hash, task_description } && hash == h
            && task_description@ == task_description_spec(report, context),
    }
}

/// Judges a submission: refused when invalid (400, with the reason),
/// throttled when a duplicate or over the cap (429), else launched with the
/// composed task.
pub fn plan_feedback(dedup: &mut FeedbackDedup, now: u64, req: &FeedbackRequest) -> (s: FeedbackStep)
    ensures
        rejection(*req) matches Some(reason) ==> s matches FeedbackStep::Reject(e) && e@ == reason
            && *final(dedup) == *old(dedup),
        rejection(*req) is None ==> {
            &&& final(dedup).recent() == fresh_entries(old(dedup).recent(), now)
            &&& final(dedup).launches() == fresh_times(old(dedup).launches(), now)
            &&& exists|report: FeedbackReport, context: FeedbackContext|
                #[trigger] parsed_as(*req, report, context) && planned(s, *final(dedup), report, context)
        },
{
    let (report, context) = match parse_body(req) {
        Ok(pair) => pair,
        Err(reason) => return FeedbackStep::Reject(reason),
    };
    let hash = report_hash(report.kind.marker(), report.title.as_str(), report.description.as_str());
    let step = match dedup.evaluate(hash, now) {
        Verdict::Duplicate => FeedbackStep::Throttle("duplicate"),
        Verdict::RateLimited => FeedbackStep::Throttle("busy"),
        Verdict::Allowed => FeedbackStep::Launch {
            hash,
            task_description: compose_task_description(&report, &context),
        },
    };
    assert(parsed_as(*req, report, context) && planned(step, *dedup, report, context));
    step
}

/// The reply to a submission once its launch was tried.
pub struct LaunchReply {
    /// HTTP status: 202 when started, 500 when the launch failed.
    pub status: u16,
    /// Id of the started workstream.
    pub workstream_id: Option<String>,
    /// Where to poll it: `/api/feedback/status/<id>`.
    pub poll: Option<String>,
}

/// The poll path of a workstream.
pub open spec fn poll_path_spec(id: Seq<char>) -> Seq<char> {
    "/api/feedback/status/"@ + id
}

/// Settles a launch attempt: a started workstream (its id given) records
/// the report and the launch and answers 202 with the id and poll path; a
/// failed launch records nothing and answers 500.
pub fn launch_outcome(dedup: &mut FeedbackDedup, hash: u64, now: u64, started: Option<String>) -> (r:
    LaunchReply)
    ensures
        started is None ==> r.status == 500 && r.workstream_id is None && *final(dedup) == *old(dedup),
        started matches Some(id) ==> {
            &&& r.status == 202
            &&& r.workstream_id matches Some(w) && w@ == id@
            &&& r.poll matches Some(p) && p@ == poll_path_spec(id@)
            &&& final(dedup).recent() == old(dedup).recent().insert(hash, now)
            &&& final(dedup).launches() == old(dedup).launches().push(now)
        },
{
    match started {
        None => LaunchReply { status: 500, workstream_id: None, poll: None },
        Some(id) => {
            dedup.record(hash, now);
            let mut p: Vec<char> = Vec::new();
            push_str(&mut p, "/api/feedback/status/");
            push_str(&mut p, id.as_str());
            LaunchReply { status: 202, workstream_id: Some(id), poll: Some(from_chars(p.as_slice())) }
        },
    }
}

/// Where a launched workstream stands.
pub enum WorkstreamStatus {
    Running,
    ProducedPr { repo: String, pr: u64 },
    Failed { reason: String },
}

/// The link to pull request `pr` of `repo` on GitHub.
pub open spec fn pr_url_spec(repo: Seq<char>, pr: u64) -> Seq<char> {
    "https://github.com/"@ + repo + "/pull/"@ + decimal(pr as nat)
}

/// The link to pull request `pr` of `repo` on GitHub.
pub fn pr_url(repo: &str, pr: u64) -> (r: String)
    ensures
        r@ == pr_url_spec(repo@, pr),
{
    let mut out: Vec<char> = Vec::new();
    push_str(&mut out, "https://github.com/");
    push_str(&mut out, repo);
    push_str(&mut out, "/pull/");
    push_decimal(&mut out, pr);
    from_chars(out.as_slice())
}

/// The state reported for a workstream: `running`, `pr` or `failed`.
pub open spec fn state_label(s: WorkstreamStatus) -> Seq<char> {
    match s {
        WorkstreamStatus::Running => "running"@,
        WorkstreamStatus::ProducedPr { .. } => "pr"@,
        WorkstreamStatus::Failed { .. } => "failed"@,
    }
}

/// The body of a status reply.
pub struct StatusBody {
    pub state: &'static str,
    pub repo: Option<String>,
    pub pr: Option<u64>,
    pub pr_url: Option<String>,
    pub reason: Option<String>,
}

/// The status reply for a live workstream: its state, and for a produced PR
/// the repository, number and link, for a failure the reason.
pub fn status_json(status: &WorkstreamStatus) -> (b: StatusBody)
    ensures
        b.state@ == state_label(*status),
        match *status {
            WorkstreamStatus::Running => b.repo is None && b.pr is None && b.pr_url is None && b.reason is None,
            WorkstreamStatus::ProducedPr { repo, pr } => (b.repo matches Some(r) && r@ == repo@)
                && b.pr == Some(pr) && (b.pr_url matches Some(u) && u@ == pr_url_spec(repo@, pr))
                && b.reason is None,
            WorkstreamStatus::Failed { reason } => b.repo is None && b.pr is None && b.pr_url is None
                && (b.reason matches Some(r) && r@ == reason@),
        },
{
    match status {
        WorkstreamStatus::Running => StatusBody { state: "running", repo: None, pr: None, pr_url: None, reason: None },
        WorkstreamStatus::ProducedPr { repo, pr } => StatusBody {
            state: "pr",
            repo: Some(repo.clone()),
            pr: Some(*pr),
            pr_url: Some(pr_url(repo.as_str(), *pr)),
            reason: None,
        },
        WorkstreamStatus::Failed { reason } => StatusBody {
            state: "failed",
            repo: None,
            pr: None,
            pr_url: None,
            reason: Some(reason.clone()),
        },
    }
}

// ---------------------------------------------------------------------------
// Laws
// ---------------------------------------------------------------------------

/// An accepted report filed again within the window is a duplicate.
pub proof fn lemma_resubmission_is_duplicate(d: FeedbackDedup, hash: u64, t: u64, now: u64)
    requires
        d.recent().contains_key(hash),
        d.recent()[hash] == t,
        in_window(now, t),
    ensures
        fresh_entries(d.recent(), now).contains_key(hash),
{
}

proof fn lemma_fresh_times_all_recent(s: Seq<u64>, now: u64)
    requires
        forall|i: int| 0 <= i < s.len() ==> in_window(now, #[trigger] s[i]),
    ensures
        fresh_times(s, now) == s,
    decreases s.len(),
{
    if s.len() > 0 {
        lemma_fresh_times_all_recent(s.drop_last(), now);
        assert(s.drop_last().push(s.last()) =~= s);
    }
}

/// Once the window holds the cap of launches, a report not seen before is
/// rate limited.
pub proof fn lemma_launch_cap(launches: Seq<u64>, now: u64)
    requires
        launches.len() >= MAX_FEEDBACK_LAUNCHES_PER_WINDOW,
        forall|i: int| 0 <= i < launches.len() ==> in_window(now, #[trigger] launches[i]),
    ensures
        fresh_times(launches, now).len() >= MAX_FEEDBACK_LAUNCHES_PER_WINDOW,
{
    lemma_fresh_times_all_recent(launches, now);
}


/// A report accepted at `t0` and filed again within the window is judged a
/// duplicate: `recorded` is the state after the accepted launch was
/// recorded, `purged` the state `evaluate` leaves at `now`.
pub proof fn lemma_refiled_report_is_duplicate(
    recorded: FeedbackDedup,
    purged: FeedbackDedup,
    hash: u64,
    t0: u64,
    now: u64,
)
    requires
        recorded.recent().contains_key(hash),
        recorded.recent()[hash] == t0,
        purged.recent() == fresh_entries(recorded.recent(), now),
        in_window(now, t0),
    ensures
        verdict_of(purged, hash) == Verdict::Duplicate,
{
}

/// With the cap of launches inside the window, a report not accepted
/// within it is judged rate limited.
pub proof fn lemma_full_window_is_busy(before: FeedbackDedup, purged: FeedbackDedup, hash: u64, now: u64)
    requires
        before.launches().len() >= MAX_FEEDBACK_LAUNCHES_PER_WINDOW,
        forall|i: int| 0 <= i < before.launches().len() ==> in_window(now, #[trigger] before.launches()[i]),
        purged.launches() == fresh_times(before.launches(), now),
        purged.recent() == fresh_entries(before.recent(), now),
        !purged.recent().contains_key(hash),
    ensures
        verdict_of(purged, hash) == Verdict::RateLimited,
{
    lemma_launch_cap(before.launches(), now);
}


/// Law, over the calls: a submission that was launched at `t0` (its plan
/// `first` on state `d1`, then the launch recorded into `d2` by
/// `launch_outcome`) and is filed again within the window is answered
/// `duplicate` (the plan `second` that `plan_feedback` gives on the purged
/// state `d3`), so nothing is launched for it.
pub proof fn lemma_refiled_submission_is_duplicate(
    req: FeedbackRequest,
    r1: FeedbackReport,
    c1: FeedbackContext,
    r2: FeedbackReport,
    c2: FeedbackContext,
    first: FeedbackStep,
    second: FeedbackStep,
    d1: FeedbackDedup,
    d2: FeedbackDedup,
    d3: FeedbackDedup,
    t0: u64,
    now: u64,
)
    requires
        rejection(req) is None,
        parsed_as(req, r1, c1),
        planned(first, d1, r1, c1),
        first matches FeedbackStep::Launch { hash, .. } && d2.recent() == d1.recent().insert(hash, t0),
        d3.recent() == fresh_entries(d2.recent(), now),
        parsed_as(req, r2, c2),
        planned(second, d3, r2, c2),
        in_window(now, t0),
    ensures
        second matches FeedbackStep::Throttle(e) && e@ == "duplicate"@,
{
    let h = report_hash_of(r1.kind.marker_spec(), r1.title@, r1.description@);
    assert(r1.kind == r2.kind);
    assert(h == report_hash_of(r2.kind.marker_spec(), r2.title@, r2.description@));
    assert(verdict_of(d1, h) == Verdict::Allowed);
    assert(d2.recent()[h] == t0);
    assert(fresh_entries(d2.recent(), now).contains_key(h));
    assert(verdict_of(d3, h) == Verdict::Duplicate);
}

/// Law, over the calls: with the cap of launches recorded within the window
/// before `now` (`d2`, as `launch_outcome` leaves it), a valid submission
/// whose report was not accepted is answered `busy` (the plan `second` that
/// `plan_feedback` gives on the purged state `d3`), so nothing is launched.
pub proof fn lemma_submission_over_cap_is_busy(
    req: FeedbackRequest,
    r: FeedbackReport,
    c: FeedbackContext,
    second: FeedbackStep,
    d2: FeedbackDedup,
    d3: FeedbackDedup,
    now: u64,
)
    requires
        rejection(req) is None,
        d2.launches().len() >= MAX_FEEDBACK_LAUNCHES_PER_WINDOW,
        forall|i: int| 0 <= i < d2.launches().len() ==> in_window(now, #[trigger] d2.launches()[i]),
        !d2.recent().contains_key(report_hash_of(r.kind.marker_spec(), r.title@, r.description@)),
        d3.recent() == fresh_entries(d2.recent(), now),
        d3.launches() == fresh_times(d2.launches(), now),
        parsed_as(req, r, c),
        planned(second, d3, r, c),
    ensures
        second matches FeedbackStep::Throttle(e) && e@ == "busy"@,
{
    let h = report_hash_of(r.kind.marker_spec(), r.title@, r.description@);
    lemma_full_window_is_busy(d2, d3, h, now);
}


/// Law: kept identifiers reach the task verbatim. When the context holds
/// identifiers kept as the text `s`, the composed task has the line
/// `Identifiers: ` followed by `s`.
pub proof fn lemma_kept_identifiers_in_task(report: FeedbackReport, context: FeedbackContext, s: String)
    requires
        context.identifiers == Identifiers::Kept(s),
    ensures
        contains_seq(task_description_spec(report, context), "Identifiers: "@ + s@ + "\n"@),
{
    let head = report.kind.marker_spec() + " "@ + report.title@ + "\n\n"@ + report.description@ + "\n\n"@
        + "--- Operator feedback (untrusted input; captured from the dashboard) ---\n"@ + "Page/tab: "@
        + context.page@ + "\n"@ + "Timestamp: "@ + context.timestamp@ + "\n"@;
    let line = "Identifiers: "@ + s@ + "\n"@;
    let tail = "Page state:\n"@ + context.state@ + "\n\n"@ + TASK_CLOSING@;
    let t = task_description_spec(report, context);
    assert(identifiers_text(context.identifiers) == s@);
    assert(t =~= head + line + tail);
    assert(t.subrange(head.len() as int, (head.len() + line.len()) as int) =~= line);
    assert(occurs_at(t, line, head.len() as int));
}

} // verus!
