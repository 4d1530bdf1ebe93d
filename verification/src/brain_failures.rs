//! Humanised reporting of brain failures: decision and rationale wording,
//! the fallback description, and the honest recent-window counts.

use vstd::prelude::*;
use crate::cycle_source::{insert_by_number, insert_pair, lemma_insert_by_number_len};
use crate::num::{decimal, parse_u64, parse_u64_spec, push_decimal, push_signed_decimal, signed_decimal};
use crate::text::{
    chars_eq, find_first, first_occurrence, from_chars, has_prefix, push_all, push_str,
    replace_chars, replace_seq, starts_with, sub_chars, to_chars, trim_chars, trim_seq,
};

verus! {

/// Maximum number of cycle reports scanned, most recent first.
pub const MAX_CYCLES_TO_SCAN: usize = 50;

/// Maximum number of failure entries returned.
pub const MAX_FAILURES_RETURNED: usize = 200;

/// Rolling window, in minutes, of the current failure rate.
pub const RECENT_WINDOW_MINUTES: i64 = 60;

/// Consecutive parse failures at which a failure counts as escalated.
pub const ISSUE_ESCALATION_THRESHOLD: u64 = 3;

/// Traffic-light status of the recent window.
pub open spec fn recent_status_spec(recent_total: u64, recent_parse_failure: u64) -> Seq<char> {
    if recent_total == 0 {
        "ok"@
    } else if recent_parse_failure > 0 {
        "err"@
    } else {
        "warn"@
    }
}

/// `ok` (green) with no failures at all, `err` (red) when a genuine parse
/// failure occurred, `warn` (amber) for deterministic fallbacks only.
pub fn recent_status(recent_total: u64, recent_parse_failure: u64) -> (s: &'static str)
    ensures
        s@ == recent_status_spec(recent_total, recent_parse_failure),
{
    if recent_total == 0 {
        "ok"
    } else if recent_parse_failure > 0 {
        "err"
    } else {
        "warn"
    }
}

/// `_` and `-` become spaces.
pub open spec fn despace(c: char) -> char {
    if c == '_' || c == '-' {
        ' '
    } else {
        c
    }
}

/// A machine decision token in plain words: trimmed, with `_`/`-` spaced.
pub open spec fn humanize_decision_spec(raw: Seq<char>) -> Seq<char> {
    trim_seq(raw).map_values(|c: char| despace(c))
}

/// Humanise a raw decision token (`consolidate_memory` becomes
/// `consolidate memory`); empty for an empty or blank input.
pub fn humanize_decision(raw: &str) -> (out: String)
    ensures
        out@ == humanize_decision_spec(raw@),
{
    let cs = to_chars(raw);
    let d = trim_chars(cs.as_slice());
    let mut v: Vec<char> = Vec::new();
    let mut i: usize = 0;
    while i < d.len()
        invariant
            i <= d.len(),
            v@ == d@.take(i as int).map_values(|c: char| despace(c)),
        decreases d.len() - i,
    {
        let c = d[i];
        v.push(if c == '_' || c == '-' { ' ' } else { c });
        assert(d@.take(i + 1).map_values(|c: char| despace(c)) =~= d@.take(i as int).map_values(
            |c: char| despace(c),
        ).push(despace(d@[i as int])));
        i = i + 1;
    }
    assert(d@.take(d.len() as int) =~= d@);
    from_chars(v.as_slice())
}

/// The plain-English rationale: known markers mapped to fixed sentences;
/// otherwise the `<x>-brain:` prefix stripped and shorthand expanded.
pub open spec fn humanize_rationale_spec(raw: Seq<char>) -> Seq<char> {
    let r = trim_seq(raw);
    if r.len() == 0 {
        r
    } else if r == "deterministic-brain: prefix-routed"@ || r == "fallback-brain: prefix-routed"@ {
        "Chosen by Simard's built-in routing rules (no language model was needed)."@
    } else if r == "deterministic-brain: no LLM configured"@ {
        "Used the built-in rules because no language model is configured."@
    } else {
        let body = match first_occurrence(r, "-brain:"@) {
            Some(i) => trim_seq(r.skip(i + "-brain:"@.len())),
            None => r,
        };
        trim_seq(
            replace_seq(
                replace_seq(body, "prefix-routed"@, "chosen by built-in routing rules"@),
                "no LLM configured"@,
                "no language model configured"@,
            ),
        )
    }
}

/// Humanise a raw brain rationale marker for operator display.
pub fn humanize_rationale(raw: &str) -> (out: String)
    ensures
        out@ == humanize_rationale_spec(raw@),
{
    let cs = to_chars(raw);
    let r = trim_chars(cs.as_slice());
    if r.len() == 0 {
        return from_chars(r.as_slice());
    }
    let k1 = to_chars("deterministic-brain: prefix-routed");
    let k2 = to_chars("fallback-brain: prefix-routed");
    let k3 = to_chars("deterministic-brain: no LLM configured");
    if chars_eq(r.as_slice(), k1.as_slice()) || chars_eq(r.as_slice(), k2.as_slice()) {
        return "Chosen by Simard's built-in routing rules (no language model was needed).".to_owned();
    }
    if chars_eq(r.as_slice(), k3.as_slice()) {
        return "Used the built-in rules because no language model is configured.".to_owned();
    }
    let marker = to_chars("-brain:");
    proof {
        reveal_strlit("-brain:");
        reveal_strlit("prefix-routed");
        reveal_strlit("no LLM configured");
    }
    let body: Vec<char> = match find_first(r.as_slice(), marker.as_slice()) {
        Some(i) => {
            let rest = sub_chars(r.as_slice(), i + marker.len(), r.len());
            assert(rest@ =~= r@.skip(i + marker@.len()));
            trim_chars(rest.as_slice())
        },
        None => r,
    };
    let p1 = to_chars("prefix-routed");
    let r1 = to_chars("chosen by built-in routing rules");
    let p2 = to_chars("no LLM configured");
    let r2 = to_chars("no language model configured");
    let a = replace_chars(body.as_slice(), p1.as_slice(), r1.as_slice());
    let b = replace_chars(a.as_slice(), p2.as_slice(), r2.as_slice());
    let t = trim_chars(b.as_slice());
    from_chars(t.as_slice())
}

/// The plain-English description of a deterministic fallback: the phase
/// sentence, then the humanised choice when there was one, then the
/// confidence only when it was recorded.
pub open spec fn fallback_description_spec(
    phase: Seq<char>,
    decision: Seq<char>,
    confidence_percent: Option<int>,
) -> Seq<char> {
    let d = humanize_decision_spec(decision);
    let chose = if d.len() == 0 {
        Seq::empty()
    } else {
        " It chose to "@ + d + "."@
    };
    let conf = match confidence_percent {
        Some(p) => " The rules were "@ + signed_decimal(p) + "% confident in that choice."@,
        None => Seq::empty(),
    };
    "The "@ + phase + " phase used its built-in safety rules instead of the language model."@
        + chose + conf
}

/// Build the Brain Failures description for a deterministic fallback.
/// `confidence_percent` is the recorded confidence already scaled to a whole
/// percentage, or `None` when none was recorded.
pub fn fallback_description(phase: &str, decision: &str, confidence_percent: Option<i64>) -> (out:
    String)
    ensures
        out@ == fallback_description_spec(
            phase@,
            decision@,
            match confidence_percent {
                Some(p) => Some(p as int),
                None => None,
            },
        ),
{
    let d = humanize_decision(decision);
    let dc = to_chars(d.as_str());
    let mut v: Vec<char> = Vec::new();
    push_str(&mut v, "The ");
    push_str(&mut v, phase);
    push_str(&mut v, " phase used its built-in safety rules instead of the language model.");
    if dc.len() > 0 {
        push_str(&mut v, " It chose to ");
        push_all(&mut v, dc.as_slice());
        push_str(&mut v, ".");
    }
    match confidence_percent {
        Some(p) => {
            push_str(&mut v, " The rules were ");
            push_signed_decimal(&mut v, p);
            push_str(&mut v, "% confident in that choice.");
        },
        None => {},
    }
    let ghost chose = if dc@.len() == 0 {
        Seq::<char>::empty()
    } else {
        " It chose to "@ + dc@ + "."@
    };
    assert(v@ =~= "The "@ + phase@ + " phase used its built-in safety rules instead of the language model."@
        + chose + match confidence_percent {
        Some(p) => " The rules were "@ + signed_decimal(p as int) + "% confident in that choice."@,
        None => Seq::<char>::empty(),
    });
    from_chars(v.as_slice())
}

/// `a` is at or after `b`: instants are (seconds since the epoch, nanoseconds
/// within the second) and compare in that order.
pub open spec fn at_or_after(a: (i64, u32), b: (i64, u32)) -> bool {
    a.0 > b.0 || (a.0 == b.0 && a.1 >= b.1)
}

fn instant_at_or_after(a: (i64, u32), b: (i64, u32)) -> (r: bool)
    ensures
        r == at_or_after(a, b),
{
    a.0 > b.0 || (a.0 == b.0 && a.1 >= b.1)
}

/// How many of `instants` are at or after `since`.
pub open spec fn count_at_or_after_spec(instants: Seq<(i64, u32)>, since: (i64, u32)) -> nat
    decreases instants.len(),
{
    if instants.len() == 0 {
        0
    } else {
        count_at_or_after_spec(instants.drop_last(), since) + if at_or_after(instants.last(), since) {
            1nat
        } else {
            0nat
        }
    }
}

/// Count the instants at or after `since`.
pub fn count_at_or_after(instants: &[(i64, u32)], since: (i64, u32)) -> (n: u64)
    ensures
        n == count_at_or_after_spec(instants@, since),
{
    let mut n: u64 = 0;
    let mut i: usize = 0;
    while i < instants.len()
        invariant
            i <= instants.len(),
            n == count_at_or_after_spec(instants@.take(i as int), since),
            n <= i,
        decreases instants.len() - i,
    {
        assert(instants@.take(i + 1).drop_last() =~= instants@.take(i as int));
        if instant_at_or_after(instants[i], since) {
            n = n + 1;
        }
        i = i + 1;
    }
    assert(instants@.take(instants.len() as int) =~= instants@);
    n
}

/// The metric names that count as a genuine brain parse failure.
pub open spec fn is_brain_parse_metric_spec(name: Seq<char>) -> bool {
    name == "brain_parse_error"@ || name == "brain_parse_failure"@
}

/// Whether `name` is one of the brain parse-failure metric names.
pub fn is_brain_parse_metric(name: &str) -> (b: bool)
    ensures
        b == is_brain_parse_metric_spec(name@),
{
    let n = to_chars(name);
    let a = to_chars("brain_parse_error");
    let b = to_chars("brain_parse_failure");
    chars_eq(n.as_slice(), a.as_slice()) || chars_eq(n.as_slice(), b.as_slice())
}

/// How many metric records name a brain parse failure and, when `since` is
/// given, were recorded at or after it.
pub open spec fn count_parse_failures_spec(metrics: Seq<(String, (i64, u32))>, since: Option<(i64, u32)>) -> nat
    decreases metrics.len(),
{
    if metrics.len() == 0 {
        0
    } else {
        let m = metrics.last();
        let hit = is_brain_parse_metric_spec(m.0@) && match since {
            Some(s) => at_or_after(m.1, s),
            None => true,
        };
        count_parse_failures_spec(metrics.drop_last(), since) + if hit {
            1nat
        } else {
            0nat
        }
    }
}

/// Count the parsed metric records `(metric_name, timestamp)` that are
/// brain parse failures, keyed on the structured metric name; with
/// `since`, only those recorded at or after it.
pub fn count_brain_parse_failure_metrics(metrics: &[(String, (i64, u32))], since: Option<(i64, u32)>) -> (n: u64)
    ensures
        n == count_parse_failures_spec(metrics@, since),
{
    let mut n: u64 = 0;
    let mut i: usize = 0;
    while i < metrics.len()
        invariant
            i <= metrics.len(),
            n == count_parse_failures_spec(metrics@.take(i as int), since),
            n <= i,
        decreases metrics.len() - i,
    {
        assert(metrics@.take(i + 1).drop_last() =~= metrics@.take(i as int));
        assert(metrics@.take(i + 1).last() == metrics@[i as int]);
        let hit = is_brain_parse_metric(metrics[i].0.as_str()) && match since {
            Some(s) => instant_at_or_after(metrics[i].1, s),
            None => true,
        };
        if hit {
            n = n + 1;
        }
        i = i + 1;
    }
    assert(metrics@.take(metrics.len() as int) =~= metrics@);
    n
}

/// Law: the recent window is green exactly when it holds no failure, and red
/// whenever a genuine parse failure is among them.
pub proof fn lemma_recent_status_green_iff_quiet(total: u64, parse_failures: u64)
    ensures
        (recent_status_spec(total, parse_failures) == "ok"@) <==> total == 0,
        total > 0 && parse_failures > 0 ==> recent_status_spec(total, parse_failures) == "err"@,
{
    reveal_strlit("ok");
    reveal_strlit("err");
    reveal_strlit("warn");
    assert("ok"@.len() == 2 && "err"@.len() == 3 && "warn"@.len() == 4);
}


// ---------------------------------------------------------------------------
// Timestamps
// ---------------------------------------------------------------------------

/// What `chrono::DateTime::parse_from_rfc3339` gives for a timestamp, as a
/// UTC instant (seconds since the epoch, nanoseconds within the second), or
/// nothing when it does not parse.
pub uninterp spec fn rfc3339_instant(ts: Seq<char>) -> Option<(i64, u32)>;

/// Parses an RFC 3339 timestamp with `chrono` and converts it to UTC. The
/// result is only named.
#[verifier::external_body]
fn parse_rfc3339_chrono(ts: &str) -> (r: Option<(i64, u32)>)
    ensures
        r == rfc3339_instant(ts@),
{
    match chrono::DateTime::parse_from_rfc3339(ts) {
        Ok(dt) => {
            let utc = dt.with_timezone(&chrono::Utc);
            Some((utc.timestamp(), utc.timestamp_subsec_nanos()))
        },
        Err(_) => None,
    }
}

/// The instant of an RFC 3339 timestamp; an empty or unparseable one gives
/// nothing, so that it is left out of the recent window rather than
/// inflating it.
pub fn parse_rfc3339(ts: &str) -> (r: Option<(i64, u32)>)
    ensures
        ts@.len() == 0 ==> r is None,
        ts@.len() > 0 ==> r == rfc3339_instant(ts@),
{
    if ts.is_empty() {
        None
    } else {
        parse_rfc3339_chrono(ts)
    }
}

// ---------------------------------------------------------------------------
// Which cycle reports are scanned
// ---------------------------------------------------------------------------

/// The cycle number in a report file name `cycle_<n>.json`, 0 when the name
/// has another shape or the number does not fit a `u32`.
pub open spec fn cycle_file_number_spec(name: Seq<char>) -> u32 {
    if has_prefix(name, "cycle_"@) && name.len() >= 11 && name.skip(name.len() - 5) == ".json"@ {
        match parse_u64_spec(name.subrange(6, name.len() - 5)) {
            Some(v) => if v <= u32::MAX {
                v as u32
            } else {
                0
            },
            None => 0,
        }
    } else {
        0
    }
}

/// The cycle number in a report file name.
pub fn cycle_file_number(name: &str) -> (n: u32)
    ensures
        n == cycle_file_number_spec(name@),
{
    let cs = to_chars(name);
    proof {
        reveal_strlit("cycle_");
        reveal_strlit(".json");
    }
    if !starts_with(cs.as_slice(), to_chars("cycle_").as_slice()) || cs.len() < 11 {
        return 0;
    }
    let tail = sub_chars(cs.as_slice(), cs.len() - 5, cs.len());
    assert(tail@ =~= name@.skip(name@.len() - 5));
    if !chars_eq(tail.as_slice(), to_chars(".json").as_slice()) {
        return 0;
    }
    let digits = sub_chars(cs.as_slice(), 6, cs.len() - 5);
    match parse_u64(digits.as_slice()) {
        Some(v) => if v <= 0xffff_ffff {
            v as u32
        } else {
            0
        },
        None => 0,
    }
}

/// The (position, cycle number) pairs of `names`, stably sorted from the
/// highest cycle number down.
pub open spec fn newest_cycles(names: Seq<Seq<char>>) -> Seq<(usize, u32)>
    decreases names.len(),
{
    if names.len() == 0 {
        Seq::empty()
    } else {
        insert_by_number(
            newest_cycles(names.drop_last()),
            ((names.len() - 1) as usize, cycle_file_number_spec(names.last())),
        )
    }
}

/// The order in which report files are scanned: their positions in `names`,
/// highest cycle number first (equal numbers in listing order), at most
/// `MAX_CYCLES_TO_SCAN` of them.
pub fn cycle_scan_order(names: &[String]) -> (order: Vec<usize>)
    ensures
        order@ == newest_cycles(names@.map_values(|s: String| s@)).take(
            if names@.len() < MAX_CYCLES_TO_SCAN {
                names@.len() as int
            } else {
                MAX_CYCLES_TO_SCAN as int
            },
        ).map_values(|p: (usize, u32)| p.0),
{
    let ghost views = names@.map_values(|s: String| s@);
    let mut sorted: Vec<(usize, u32)> = Vec::new();
    let mut i: usize = 0;
    while i < names.len()
        invariant
            i <= names.len(),
            views == names@.map_values(|s: String| s@),
            sorted@ == newest_cycles(views.take(i as int)),
        decreases names.len() - i,
    {
        let ghost t = views.take(i + 1);
        assert(t.drop_last() =~= views.take(i as int));
        assert(t.last() == names@[i as int]@);
        let n = cycle_file_number(names[i].as_str());
        insert_pair(&mut sorted, (i, n));
        i = i + 1;
    }
    assert(views.take(names.len() as int) =~= views);
    proof {
        lemma_newest_cycles_len(views);
    }
    let limit: usize = if names.len() < MAX_CYCLES_TO_SCAN {
        names.len()
    } else {
        MAX_CYCLES_TO_SCAN
    };
    let mut order: Vec<usize> = Vec::new();
    let mut k: usize = 0;
    while k < limit
        invariant
            k <= limit <= sorted@.len(),
            order@ == sorted@.take(k as int).map_values(|p: (usize, u32)| p.0),
        decreases limit - k,
    {
        order.push(sorted[k].0);
        assert(sorted@.take(k + 1).map_values(|p: (usize, u32)| p.0) =~= sorted@.take(k as int).map_values(
            |p: (usize, u32)| p.0,
        ).push(sorted@[k as int].0));
        k = k + 1;
    }
    order
}

proof fn lemma_newest_cycles_len(names: Seq<Seq<char>>)
    ensures
        newest_cycles(names).len() == names.len(),
    decreases names.len(),
{
    if names.len() > 0 {
        lemma_newest_cycles_len(names.drop_last());
        lemma_insert_by_number_len(
            newest_cycles(names.drop_last()),
            ((names.len() - 1) as usize, cycle_file_number_spec(names.last())),
        );
    }
}

// ---------------------------------------------------------------------------
// Scanning cycle reports
// ---------------------------------------------------------------------------

/// A recorded brain parse failure.
pub struct ParseFailure {
    pub error_message: Option<String>,
    pub consecutive_count: Option<u64>,
    pub prompt_name: Option<String>,
    pub timestamp: Option<String>,
}

/// One brain judgment of a cycle report, as far as the Brain Failures view
/// reads it. `confidence_percent` is the recorded confidence scaled to a
/// whole percentage.
pub struct Judgment {
    pub fallback: bool,
    pub parse_failure: Option<ParseFailure>,
    pub phase: Option<String>,
    pub decision: Option<String>,
    pub rationale: Option<String>,
    pub confidence_percent: Option<i64>,
}

/// A string field, or `default` when absent.
pub open spec fn or_default(f: Option<String>, default: Seq<char>) -> Seq<char> {
    match f {
        Some(s) => s@,
        None => default,
    }
}

fn field_or<'a>(f: &'a Option<String>, default: &'a str) -> (r: &'a str)
    ensures
        r@ == or_default(*f, default@),
{
    match f {
        Some(s) => s.as_str(),
        None => default,
    }
}

/// A judgment is shown when it fell back to the rules or failed to parse.
pub open spec fn is_failure(j: Judgment) -> bool {
    j.fallback || j.parse_failure is Some
}

/// Consecutive failures recorded for a parse failure (0 when absent).
pub open spec fn consecutive(pf: ParseFailure) -> u64 {
    match pf.consecutive_count {
        Some(c) => c,
        None => 0,
    }
}

/// The description of a parse failure.
pub open spec fn parse_failure_description_spec(phase: Seq<char>, pf: ParseFailure) -> Seq<char> {
    "The "@ + phase + " phase brain failed to parse a valid response from the language model (prompt: "@
        + or_default(pf.prompt_name, Seq::empty()) + ", "@ + decimal(consecutive(pf) as nat)
        + " consecutive failure"@ + (if consecutive(pf) == 1 {
        Seq::empty()
    } else {
        "s"@
    }) + "). Error: "@ + or_default(pf.error_message, "unknown error"@)
}

/// The plain-English name of a phase.
pub open spec fn phase_plain_spec(phase: Seq<char>) -> Seq<char> {
    if phase == "act"@ {
        "Act — deciding what to do with a running engineer"@
    } else if phase == "decide"@ {
        "Decide — choosing which action to take for a goal"@
    } else if phase == "orient"@ {
        "Orient — ranking goal urgency after failures"@
    } else {
        "Unknown phase"@
    }
}

/// One shown failure.
pub struct FailureEntry {
    /// Position of the judgment within its report.
    pub judgment_index: usize,
    pub failure_type: &'static str,
    pub failure_type_plain: &'static str,
    pub description: String,
    pub phase: String,
    pub phase_plain: &'static str,
    pub decision: String,
    pub rationale: String,
    pub cycle_number: u64,
    pub timestamp: String,
    pub recovery_succeeded: bool,
    pub escalated: bool,
}

/// `e` is the entry shown for judgment `j` of the report of cycle `cycle`
/// stamped `ts`.
pub open spec fn entry_for(e: FailureEntry, cycle: u64, ts: Seq<char>, j: Judgment) -> bool {
    let phase = or_default(j.phase, "unknown"@);
    let decision = or_default(j.decision, Seq::empty());
    &&& e.phase@ == phase
    &&& e.phase_plain@ == phase_plain_spec(phase)
    &&& e.decision@ == decision
    &&& e.rationale@ == humanize_rationale_spec(or_default(j.rationale, Seq::empty()))
    &&& e.cycle_number == cycle
    &&& e.recovery_succeeded
    &&& match j.parse_failure {
        Some(pf) => {
            &&& e.failure_type@ == "parse_failure"@
            &&& e.failure_type_plain@ == "Brain could not understand model response"@
            &&& e.description@ == parse_failure_description_spec(phase, pf)
            &&& e.escalated == (consecutive(pf) >= ISSUE_ESCALATION_THRESHOLD)
            &&& e.timestamp@ == or_default(pf.timestamp, ts)
        },
        None => {
            &&& e.failure_type@ == "deterministic_fallback"@
            &&& e.failure_type_plain@ == "Brain used safe fallback rules instead of model"@
            &&& e.description@ == fallback_description_spec(
                phase,
                decision,
                match j.confidence_percent {
                    Some(p) => Some(p as int),
                    None => None,
                },
            )
            &&& !e.escalated
            &&& e.timestamp@ == ts
        },
    }
}

fn parse_failure_description(phase: &str, pf: &ParseFailure) -> (r: String)
    ensures
        r@ == parse_failure_description_spec(phase@, *pf),
{
    let consec: u64 = match pf.consecutive_count {
        Some(c) => c,
        None => 0,
    };
    let mut out: Vec<char> = Vec::new();
    push_str(&mut out, "The ");
    push_str(&mut out, phase);
    push_str(&mut out, " phase brain failed to parse a valid response from the language model (prompt: ");
    push_str(&mut out, field_or(&pf.prompt_name, ""));
    push_str(&mut out, ", ");
    push_decimal(&mut out, consec);
    push_str(&mut out, " consecutive failure");
    if consec != 1 {
        push_str(&mut out, "s");
    }
    push_str(&mut out, "). Error: ");
    push_str(&mut out, field_or(&pf.error_message, "unknown error"));
    proof {
        reveal_strlit("");
    }
    assert(out@ =~= parse_failure_description_spec(phase@, *pf));
    from_chars(out.as_slice())
}

fn phase_plain(phase: &str) -> (r: &'static str)
    ensures
        r@ == phase_plain_spec(phase@),
{
    let p = to_chars(phase);
    if chars_eq(p.as_slice(), to_chars("act").as_slice()) {
        "Act — deciding what to do with a running engineer"
    } else if chars_eq(p.as_slice(), to_chars("decide").as_slice()) {
        "Decide — choosing which action to take for a goal"
    } else if chars_eq(p.as_slice(), to_chars("orient").as_slice()) {
        "Orient — ranking goal urgency after failures"
    } else {
        "Unknown phase"
    }
}

/// The entry shown for one failing judgment.
pub fn failure_entry(index: usize, cycle: u64, ts: &str, j: &Judgment) -> (e: FailureEntry)
    ensures
        e.judgment_index == index,
        entry_for(e, cycle, ts@, *j),
{
    proof {
        reveal_strlit("unknown");
        reveal_strlit("");
        assert(""@ =~= Seq::<char>::empty());
    }
    let phase = field_or(&j.phase, "unknown");
    let decision = field_or(&j.decision, "");
    let rationale = humanize_rationale(field_or(&j.rationale, ""));
    match &j.parse_failure {
        Some(pf) => FailureEntry {
            judgment_index: index,
            failure_type: "parse_failure",
            failure_type_plain: "Brain could not understand model response",
            description: parse_failure_description(phase, pf),
            phase: phase.to_owned(),
            phase_plain: phase_plain(phase),
            decision: decision.to_owned(),
            rationale,
            cycle_number: cycle,
            timestamp: field_or(&pf.timestamp, ts).to_owned(),
            recovery_succeeded: true,
            escalated: match pf.consecutive_count {
                Some(c) => c >= ISSUE_ESCALATION_THRESHOLD,
                None => 0 >= ISSUE_ESCALATION_THRESHOLD,
            },
        },
        None => FailureEntry {
            judgment_index: index,
            failure_type: "deterministic_fallback",
            failure_type_plain: "Brain used safe fallback rules instead of model",
            description: fallback_description(phase, decision, j.confidence_percent),
            phase: phase.to_owned(),
            phase_plain: phase_plain(phase),
            decision: decision.to_owned(),
            rationale,
            cycle_number: cycle,
            timestamp: ts.to_owned(),
            recovery_succeeded: true,
            escalated: false,
        },
    }
}

/// Positions of the failing judgments of `js`, in order.
pub open spec fn failure_positions(js: Seq<Judgment>) -> Seq<int>
    decreases js.len(),
{
    if js.len() == 0 {
        Seq::empty()
    } else if is_failure(js.last()) {
        failure_positions(js.drop_last()).push(js.len() - 1)
    } else {
        failure_positions(js.drop_last())
    }
}

/// How many of `js` fell back to the rules.
pub open spec fn count_fallbacks(js: Seq<Judgment>) -> nat
    decreases js.len(),
{
    if js.len() == 0 {
        0
    } else {
        count_fallbacks(js.drop_last()) + if js.last().fallback {
            1nat
        } else {
            0nat
        }
    }
}

/// How many of `js` failed to parse.
pub open spec fn count_parse_failures(js: Seq<Judgment>) -> nat
    decreases js.len(),
{
    if js.len() == 0 {
        0
    } else {
        count_parse_failures(js.drop_last()) + if js.last().parse_failure is Some {
            1nat
        } else {
            0nat
        }
    }
}

/// The report time of every fallback in `js`, once per fallback, when the
/// report time parses.
pub open spec fn fallback_instants_spec(ts: Seq<char>, js: Seq<Judgment>) -> Seq<(i64, u32)>
    decreases js.len(),
{
    if js.len() == 0 {
        Seq::empty()
    } else {
        let rest = fallback_instants_spec(ts, js.drop_last());
        let inst = if ts.len() == 0 {
            None
        } else {
            rfc3339_instant(ts)
        };
        if js.last().fallback && inst is Some {
            rest.push(inst->0)
        } else {
            rest
        }
    }
}

/// What a scan over cycle reports has gathered.
pub struct FailureScan {
    /// The failures shown, at most `MAX_FAILURES_RETURNED`.
    pub failures: Vec<FailureEntry>,
    pub total_fallback_count: u64,
    pub total_parse_failure_count: u64,
    pub cycles_scanned: u32,
    /// When each counted fallback happened, for the recent window.
    pub fallback_instants: Vec<(i64, u32)>,
}

impl FailureScan {
    /// Nothing scanned yet.
    pub fn new() -> (r: FailureScan)
        ensures
            r.failures@.len() == 0,
            r.total_fallback_count == 0,
            r.total_parse_failure_count == 0,
            r.cycles_scanned == 0,
            r.fallback_instants@.len() == 0,
    {
        FailureScan {
            failures: Vec::new(),
            total_fallback_count: 0,
            total_parse_failure_count: 0,
            cycles_scanned: 0,
            fallback_instants: Vec::new(),
        }
    }

    /// Takes in one parsed cycle report (`judgments` is `None` when it has
    /// no judgment list): the report counts as scanned; every fallback and
    /// parse failure is counted; failing judgments are shown, in order, until
    /// `MAX_FAILURES_RETURNED` are shown, counting going on past that.
    pub fn scan_report(&mut self, cycle: u64, ts: &str, judgments: Option<&[Judgment]>)
        requires
            old(self).cycles_scanned < u32::MAX,
            old(self).failures@.len() <= MAX_FAILURES_RETURNED,
            judgments matches Some(js) ==> old(self).total_fallback_count + js@.len() <= u64::MAX
                && old(self).total_parse_failure_count + js@.len() <= u64::MAX,
        ensures
            final(self).cycles_scanned == old(self).cycles_scanned + 1,
            judgments is None ==> {
                &&& final(self).failures@ == old(self).failures@
                &&& final(self).total_fallback_count == old(self).total_fallback_count
                &&& final(self).total_parse_failure_count == old(self).total_parse_failure_count
                &&& final(self).fallback_instants@ == old(self).fallback_instants@
            },
            judgments matches Some(js) ==> {
                let pos = failure_positions(js@);
                let shown = if old(self).failures@.len() + pos.len() <= MAX_FAILURES_RETURNED {
                    pos.len() as int
                } else {
                    MAX_FAILURES_RETURNED - old(self).failures@.len()
                };
                &&& final(self).total_fallback_count == old(self).total_fallback_count + count_fallbacks(js@)
                &&& final(self).total_parse_failure_count == old(self).total_parse_failure_count
                    + count_parse_failures(js@)
                &&& final(self).fallback_instants@ == old(self).fallback_instants@
                    + fallback_instants_spec(ts@, js@)
                &&& final(self).failures@.len() == old(self).failures@.len() + shown
                &&& final(self).failures@.take(old(self).failures@.len() as int) == old(self).failures@
                &&& forall|k: int|
                    0 <= k < shown ==> {
                        let e = #[trigger] final(self).failures@[old(self).failures@.len() + k];
                        &&& e.judgment_index == pos[k]
                        &&& entry_for(e, cycle, ts@, js@[pos[k]])
                    }
            },
    {
        self.cycles_scanned = self.cycles_scanned + 1;
        let js = match judgments {
            Some(js) => js,
            None => return,
        };
        let ghost old_failures = self.failures@;
        let ghost old_fb = self.total_fallback_count;
        let ghost old_pf = self.total_parse_failure_count;
        let ghost old_inst = self.fallback_instants@;
        let inst = parse_rfc3339(ts);
        let mut i: usize = 0;
        while i < js.len()
            invariant
                i <= js.len(),
                self.cycles_scanned == old(self).cycles_scanned + 1,
                old_failures.len() <= MAX_FAILURES_RETURNED,
                old_fb + js@.len() <= u64::MAX,
                old_pf + js@.len() <= u64::MAX,
                ts@.len() == 0 ==> inst is None,
                ts@.len() > 0 ==> inst == rfc3339_instant(ts@),
                self.total_fallback_count == old_fb + count_fallbacks(js@.take(i as int)),
                self.total_parse_failure_count == old_pf + count_parse_failures(js@.take(i as int)),
                count_fallbacks(js@.take(i as int)) <= i,
                count_parse_failures(js@.take(i as int)) <= i,
                self.fallback_instants@ == old_inst + fallback_instants_spec(ts@, js@.take(i as int)),
                ({
                    let pos = failure_positions(js@.take(i as int));
                    let shown = if old_failures.len() + pos.len() <= MAX_FAILURES_RETURNED {
                        pos.len() as int
                    } else {
                        MAX_FAILURES_RETURNED - old_failures.len()
                    };
                    &&& self.failures@.len() == old_failures.len() + shown
                    &&& self.failures@.take(old_failures.len() as int) == old_failures
                    &&& forall|k: int|
                        0 <= k < shown ==> {
                            let e = #[trigger] self.failures@[old_failures.len() + k];
                            &&& e.judgment_index == pos[k]
                            &&& entry_for(e, cycle, ts@, js@.take(i as int)[pos[k]])
                        }
                }),
            decreases js.len() - i,
        {
            let ghost t = js@.take(i + 1);
            assert(t.drop_last() =~= js@.take(i as int));
            assert(t.last() == js@[i as int]);
            let ghost pos_before = failure_positions(js@.take(i as int));
            proof {
                lemma_positions_bound(js@.take(i as int));
                assert forall|k: int| 0 <= k < pos_before.len() implies #[trigger] js@.take(i as int)[pos_before[k]] == t[pos_before[k]] by {
                }
            }
            let j = &js[i];
            if j.fallback {
                self.total_fallback_count = self.total_fallback_count + 1;
                if let Some(at) = inst {
                    self.fallback_instants.push(at);
                }
            }
            if j.parse_failure.is_some() {
                self.total_parse_failure_count = self.total_parse_failure_count + 1;
            }
            if (j.fallback || j.parse_failure.is_some()) && self.failures.len() < MAX_FAILURES_RETURNED {
                let e = failure_entry(i, cycle, ts, j);
                self.failures.push(e);
            }
            proof {
                let pos = failure_positions(t);
                assert(forall|k: int| 0 <= k < pos_before.len() ==> pos[k] == pos_before[k]);
                assert(self.failures@.take(old_failures.len() as int) =~= old_failures);
            }
            i = i + 1;
        }
        assert(js@.take(js.len() as int) =~= js@);
    }
}

proof fn lemma_positions_bound(js: Seq<Judgment>)
    ensures
        forall|k: int|
            0 <= k < failure_positions(js).len() ==> 0 <= #[trigger] failure_positions(js)[k] < js.len()
                && is_failure(js[failure_positions(js)[k]]),
        failure_positions(js).len() <= js.len(),
    decreases js.len(),
{
    if js.len() > 0 {
        lemma_positions_bound(js.drop_last());
        let p = failure_positions(js.drop_last());
        assert forall|k: int| 0 <= k < p.len() implies #[trigger] js.drop_last()[p[k]] == js[p[k]] by {}
    }
}

/// The recent-window counts of the Brain Failures headline.
pub struct RecentWindow {
    pub total: u64,
    pub fallback: u64,
    pub parse_failure: u64,
    pub status: &'static str,
}

/// The recent window: fallbacks since `since` from the scanned reports,
/// genuine parse failures since `since` from the metric records, their sum,
/// and the traffic-light status.
pub fn recent_window(fallback_instants: &[(i64, u32)], metrics: &[(String, (i64, u32))], since: (i64, u32)) -> (w: RecentWindow)
    requires
        fallback_instants@.len() + metrics@.len() <= u64::MAX,
    ensures
        w.fallback == count_at_or_after_spec(fallback_instants@, since),
        w.parse_failure == count_parse_failures_spec(metrics@, Some(since)),
        w.total == w.fallback + w.parse_failure,
        w.status@ == recent_status_spec(w.total, w.parse_failure),
{
    let fallback = count_at_or_after(fallback_instants, since);
    let parse_failure = count_brain_parse_failure_metrics(metrics, Some(since));
    proof {
        lemma_count_at_or_after_bound(fallback_instants@, since);
        lemma_count_parse_failures_bound(metrics@, Some(since));
    }
    let total = fallback + parse_failure;
    RecentWindow { total, fallback, parse_failure, status: recent_status(total, parse_failure) }
}

proof fn lemma_count_at_or_after_bound(s: Seq<(i64, u32)>, since: (i64, u32))
    ensures
        count_at_or_after_spec(s, since) <= s.len(),
    decreases s.len(),
{
    if s.len() > 0 {
        lemma_count_at_or_after_bound(s.drop_last(), since);
    }
}

proof fn lemma_count_parse_failures_bound(s: Seq<(String, (i64, u32))>, since: Option<(i64, u32)>)
    ensures
        count_parse_failures_spec(s, since) <= s.len(),
    decreases s.len(),
{
    if s.len() > 0 {
        lemma_count_parse_failures_bound(s.drop_last(), since);
    }
}


/// Law: each known phase gets its own plain-English name: `act`, `decide`
/// and `orient` map to their fixed sentences, these three differ, and a
/// phase is named "Unknown phase" exactly when it is none of the three.
pub proof fn lemma_phase_plain_names(phase: Seq<char>)
    ensures
        phase == "act"@ ==> phase_plain_spec(phase) == "Act — deciding what to do with a running engineer"@,
        phase == "decide"@ ==> phase_plain_spec(phase) == "Decide — choosing which action to take for a goal"@,
        phase == "orient"@ ==> phase_plain_spec(phase) == "Orient — ranking goal urgency after failures"@,
        phase_plain_spec(phase) == "Unknown phase"@ <==> !(phase == "act"@ || phase == "decide"@ || phase
            == "orient"@),
        phase_plain_spec("act"@) != phase_plain_spec("decide"@),
        phase_plain_spec("act"@) != phase_plain_spec("orient"@),
        phase_plain_spec("decide"@) != phase_plain_spec("orient"@),
{
    reveal_strlit("act");
    reveal_strlit("decide");
    reveal_strlit("orient");
    reveal_strlit("Act — deciding what to do with a running engineer");
    reveal_strlit("Decide — choosing which action to take for a goal");
    reveal_strlit("Orient — ranking goal urgency after failures");
    reveal_strlit("Unknown phase");
    let a = "Act — deciding what to do with a running engineer"@;
    let d = "Decide — choosing which action to take for a goal"@;
    let o = "Orient — ranking goal urgency after failures"@;
    let u = "Unknown phase"@;
    assert("act"@.len() == 3 && "decide"@.len() == 6 && "orient"@.len() == 6);
    assert("decide"@ != "act"@);
    assert("orient"@ != "act"@);
    assert("decide"@[0] != "orient"@[0]);
    assert("orient"@ != "decide"@);
    assert(a[0] != d[0] && a[0] != o[0] && d[0] != o[0]);
    assert(a[0] != u[0] && d[0] != u[0] && o[0] != u[0]);
}

} // verus!
