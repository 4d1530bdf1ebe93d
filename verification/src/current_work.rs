//! What Simard is doing right now: the cycle phase, uptime and next-cycle
//! countdown from the daemon health record, each goal's status label, and
//! the "Recent Actions" entries taken from one cycle report.

use vstd::prelude::*;
use crate::chat_store::{truncate_with_ellipsis, truncate_with_ellipsis_spec};
use crate::cycle_source::{authoritative_cycle_number, health_cycle_number_spec, latest_cycle_spec};
use crate::goals::GoalProgress;
use crate::num::{decimal, push_decimal};
use crate::text::{chars_eq, from_chars, push_all, push_str, sub_chars, to_chars};

verus! {

/// Longest `result` text of a recent-action entry, in characters.
pub const RECENT_ACTION_MAX_LEN: usize = 200;

/// Cycle interval assumed when the health record has none, in seconds.
pub const DEFAULT_INTERVAL_SECS: u64 = 300;

// ---------------------------------------------------------------------------
// Cycle phase, uptime and countdown
// ---------------------------------------------------------------------------

/// What `char::to_uppercase` gives for `c`.
pub uninterp spec fn char_upper(c: char) -> Seq<char>;

/// Upper-cases one character with `char::to_uppercase`. The result is only
/// named.
#[verifier::external_body]
fn upper(c: char) -> (r: String)
    ensures
        r@ == char_upper(c),
{
    c.to_uppercase().collect()
}

/// A phase for display: its first character upper-cased, `Unknown` when
/// empty.
pub open spec fn phase_display_spec(phase: Seq<char>) -> Seq<char> {
    if phase.len() == 0 {
        "Unknown"@
    } else {
        char_upper(phase[0]) + phase.skip(1)
    }
}

/// A phase for display: its first character upper-cased.
pub fn phase_display(phase: &str) -> (r: String)
    ensures
        r@ == phase_display_spec(phase@),
{
    let cs = to_chars(phase);
    if cs.len() == 0 {
        return "Unknown".to_owned();
    }
    let first = upper(cs[0]);
    let mut out = to_chars(first.as_str());
    let rest = sub_chars(cs.as_slice(), 1, cs.len());
    assert(rest@ =~= phase@.skip(1));
    push_all(&mut out, rest.as_slice());
    from_chars(out.as_slice())
}

/// Seconds since the cycle started (0 when the start is unknown, and never
/// negative).
pub open spec fn uptime_spec(cycle_start: u64, now: u64) -> u64 {
    if cycle_start > 0 && now > cycle_start {
        (now - cycle_start) as u64
    } else {
        0
    }
}

/// Seconds until the next cycle: only while the daemon sleeps, counting from
/// the cycle's start plus its duration plus the interval (the bare interval
/// when the duration is unknown), never negative.
pub open spec fn eta_spec(phase: Seq<char>, cycle_start: u64, duration: Option<u64>, interval: u64, now: u64) -> u64 {
    if phase == "sleep"@ {
        match duration {
            Some(d) => {
                let next = cycle_start + d + interval;
                if next > now {
                    (next - now) as u64
                } else {
                    0
                }
            },
            None => interval,
        }
    } else {
        0
    }
}

/// The daemon health record, as far as the current-work view reads it.
pub struct HealthFields {
    pub cycle_number: Option<u64>,
    pub cycle_phase: Option<String>,
    pub cycle_start_epoch: Option<u64>,
    pub interval_secs: Option<u64>,
    pub last_cycle_summary: Option<String>,
    pub cycle_duration_secs: Option<u64>,
}

/// A number field, or `default`.
pub open spec fn num_or(f: Option<u64>, default: u64) -> u64 {
    match f {
        Some(v) => v,
        None => default,
    }
}

/// A text field, or `default`.
pub open spec fn text_or(f: Option<String>, default: Seq<char>) -> Seq<char> {
    match f {
        Some(s) => s@,
        None => default,
    }
}

/// The cycle part of the current-work view.
pub struct CycleStatus {
    pub cycle_number: u64,
    pub cycle_phase: String,
    pub uptime_seconds: u64,
    pub last_cycle_summary: String,
    pub next_cycle_eta_seconds: u64,
}

/// The cycle part of the current-work view: the one authoritative cycle
/// number, the phase for display (`unknown` when missing), the uptime, the
/// last summary and the countdown (interval 300 s when missing). `now` is in
/// seconds since the epoch.
pub fn cycle_status(health: &HealthFields, report_names: &[String], now: u64) -> (s: CycleStatus)
    requires
        health.cycle_phase matches Some(p) && p@ == "sleep"@ && health.cycle_duration_secs is Some
            ==> num_or(health.cycle_start_epoch, 0) + health.cycle_duration_secs->0 + num_or(
            health.interval_secs,
            DEFAULT_INTERVAL_SECS,
        ) <= u64::MAX,
    ensures
        s.cycle_number >= health_cycle_number_spec(health.cycle_number),
        s.cycle_number >= latest_cycle_spec(report_names@.map_values(|r: String| r@)),
        s.cycle_number == health_cycle_number_spec(health.cycle_number) || s.cycle_number
            == latest_cycle_spec(report_names@.map_values(|r: String| r@)),
        s.cycle_phase@ == phase_display_spec(text_or(health.cycle_phase, "unknown"@)),
        s.uptime_seconds == uptime_spec(num_or(health.cycle_start_epoch, 0), now),
        s.last_cycle_summary@ == text_or(health.last_cycle_summary, Seq::empty()),
        s.next_cycle_eta_seconds == eta_spec(
            text_or(health.cycle_phase, "unknown"@),
            num_or(health.cycle_start_epoch, 0),
            health.cycle_duration_secs,
            num_or(health.interval_secs, DEFAULT_INTERVAL_SECS),
            now,
        ),
{
    let cycle_number = authoritative_cycle_number(health.cycle_number, report_names);
    let phase: &str = match &health.cycle_phase {
        Some(p) => p.as_str(),
        None => "unknown",
    };
    let start: u64 = match health.cycle_start_epoch {
        Some(v) => v,
        None => 0,
    };
    let interval: u64 = match health.interval_secs {
        Some(v) => v,
        None => DEFAULT_INTERVAL_SECS,
    };
    let uptime: u64 = if start > 0 && now > start {
        now - start
    } else {
        0
    };
    proof {
        reveal_strlit("sleep");
        reveal_strlit("unknown");
        assert("unknown"@.len() != "sleep"@.len());
    }
    let eta: u64 = if chars_eq(to_chars(phase).as_slice(), to_chars("sleep").as_slice()) {
        match health.cycle_duration_secs {
            Some(d) => {
                let next = start + d + interval;
                if next > now {
                    next - now
                } else {
                    0
                }
            },
            None => interval,
        }
    } else {
        0
    };
    let summary: String = match &health.last_cycle_summary {
        Some(s) => s.clone(),
        None => String::new(),
    };
    CycleStatus {
        cycle_number,
        cycle_phase: phase_display(phase),
        uptime_seconds: uptime,
        last_cycle_summary: summary,
        next_cycle_eta_seconds: eta,
    }
}

// ---------------------------------------------------------------------------
// Goal status labels
// ---------------------------------------------------------------------------

/// A goal's status label, and the blocker when it is blocked.
pub open spec fn goal_status_spec(g: GoalProgress) -> (Seq<char>, Option<Seq<char>>) {
    match g {
        GoalProgress::Proposed => ("proposed"@, None),
        GoalProgress::NotStarted => ("not_started"@, None),
        GoalProgress::InProgress { percent } => ("in_progress("@ + decimal(percent as nat) + "%)"@, None),
        GoalProgress::Blocked(reason) => ("blocked"@, Some(reason@)),
        GoalProgress::Paused => ("paused"@, None),
        GoalProgress::Completed => ("completed"@, None),
    }
}

/// A goal's status label (`in_progress(40%)` and the like), and the blocker
/// when it is blocked.
pub fn goal_status_label(g: &GoalProgress) -> (r: (String, Option<String>))
    ensures
        (r.0@, match r.1 {
            Some(b) => Some(b@),
            None => None,
        }) == goal_status_spec(*g),
{
    match g {
        GoalProgress::Proposed => ("proposed".to_owned(), None),
        GoalProgress::NotStarted => ("not_started".to_owned(), None),
        GoalProgress::InProgress { percent } => {
            let mut out: Vec<char> = Vec::new();
            push_str(&mut out, "in_progress(");
            push_decimal(&mut out, *percent as u64);
            push_str(&mut out, "%)");
            (from_chars(out.as_slice()), None)
        },
        GoalProgress::Blocked(reason) => ("blocked".to_owned(), Some(reason.clone())),
        GoalProgress::Paused => ("paused".to_owned(), None),
        GoalProgress::Completed => ("completed".to_owned(), None),
    }
}

// ---------------------------------------------------------------------------
// Recent actions of a cycle
// ---------------------------------------------------------------------------

/// One recorded outcome of a cycle.
pub struct Outcome {
    pub action_kind: Option<String>,
    pub detail: Option<String>,
    pub action_description: Option<String>,
}

/// One planned action of a cycle.
pub struct PlannedAction {
    pub kind: Option<String>,
    pub description: Option<String>,
}

/// What a cycle report offers the "Recent Actions" panel. `top_summary` is
/// the `summary` of the wrapper (a plain-text report); the other fields are
/// those of the parsed report.
pub struct CycleActions {
    pub timestamp: Option<String>,
    pub outcomes: Option<Vec<Outcome>>,
    pub planned_actions: Option<Vec<PlannedAction>>,
    pub top_summary: Option<String>,
    pub summary: Option<String>,
    pub actions_taken: Option<String>,
}

/// One entry of the "Recent Actions" panel.
pub struct RecentAction {
    pub cycle: u64,
    pub action: String,
    pub target: String,
    pub result: String,
    pub at: String,
}

/// The text an outcome shows: its detail when not empty, else its action
/// description, else `(no detail)`.
pub open spec fn outcome_text(o: Outcome) -> Seq<char> {
    match o.detail {
        Some(d) if d@.len() > 0 => d@,
        _ => match o.action_description {
            Some(a) => a@,
            None => "(no detail)"@,
        },
    }
}

/// The text a planned action shows: its description when not empty, else
/// `(no description)`.
pub open spec fn planned_text(a: PlannedAction) -> Seq<char> {
    match a.description {
        Some(d) if d@.len() > 0 => d@,
        _ => "(no description)"@,
    }
}

/// The last-resort summary: the wrapper's, else the report's `summary`, else
/// its `actions_taken`, else empty.
pub open spec fn summary_text(r: CycleActions) -> Seq<char> {
    match r.top_summary {
        Some(s) => s@,
        None => match r.summary {
            Some(s) => s@,
            None => match r.actions_taken {
                Some(s) => s@,
                None => Seq::empty(),
            },
        },
    }
}

/// `e` is an entry of cycle `cycle` at `ts` for `action` with `result`, cut
/// to 200 characters.
pub open spec fn entry_is(e: RecentAction, cycle: u64, ts: Seq<char>, action: Seq<char>, result: Seq<char>) -> bool {
    &&& e.cycle == cycle
    &&& e.action@ == action
    &&& e.target@.len() == 0
    &&& e.result@ == truncate_with_ellipsis_spec(result, RECENT_ACTION_MAX_LEN as nat)
    &&& e.at@ == ts
}

/// The recorded outcomes of a report (empty when it has none).
pub open spec fn outcomes_of(r: CycleActions) -> Seq<Outcome> {
    match r.outcomes {
        Some(os) => os@,
        None => Seq::empty(),
    }
}

/// The planned actions of a report (empty when it has none).
pub open spec fn planned_of(r: CycleActions) -> Seq<PlannedAction> {
    match r.planned_actions {
        Some(ps) => ps@,
        None => Seq::empty(),
    }
}

/// The entries a cycle report gives: one per recorded outcome when there
/// are any; else one per planned action when there are any; else one
/// `cycle-summary` entry when the summary is not empty; else none.
pub open spec fn recent_actions_ok(out: Seq<RecentAction>, cycle: u64, r: CycleActions) -> bool {
    let ts = text_or(r.timestamp, Seq::empty());
    let os = outcomes_of(r);
    let ps = planned_of(r);
    if os.len() > 0 {
        &&& out.len() == os.len()
        &&& forall|i: int|
            0 <= i < out.len() ==> entry_is(
                #[trigger] out[i],
                cycle,
                ts,
                text_or(os[i].action_kind, "action"@),
                outcome_text(os[i]),
            )
    } else if ps.len() > 0 {
        &&& out.len() == ps.len()
        &&& forall|i: int|
            0 <= i < out.len() ==> entry_is(
                #[trigger] out[i],
                cycle,
                ts,
                text_or(ps[i].kind, "action"@),
                planned_text(ps[i]),
            )
    } else if summary_text(r).len() > 0 {
        &&& out.len() == 1
        &&& entry_is(out[0], cycle, ts, "cycle-summary"@, summary_text(r))
    } else {
        out.len() == 0
    }
}

fn text_field<'a>(f: &'a Option<String>, default: &'a str) -> (r: &'a str)
    ensures
        r@ == text_or(*f, default@),
{
    match f {
        Some(s) => s.as_str(),
        None => default,
    }
}

fn action_entry(cycle: u64, ts: &str, action: &str, result: &str) -> (e: RecentAction)
    ensures
        entry_is(e, cycle, ts@, action@, result@),
{
    proof {
        reveal_strlit("");
    }
    RecentAction {
        cycle,
        action: action.to_owned(),
        target: String::new(),
        result: truncate_with_ellipsis(result, RECENT_ACTION_MAX_LEN),
        at: ts.to_owned(),
    }
}

/// The "Recent Actions" entries of one cycle report: outcome details first,
/// planned actions for older cycles without outcomes, the cycle summary as
/// a last resort; each result cut to 200 characters.
pub fn format_recent_actions_for_cycle(cycle: u64, report: &CycleActions) -> (out: Vec<RecentAction>)
    ensures
        recent_actions_ok(out@, cycle, *report),
{
    proof {
        reveal_strlit("");
        assert(""@ =~= Seq::<char>::empty());
    }
    let ts = text_field(&report.timestamp, "");
    let mut out: Vec<RecentAction> = Vec::new();
    if let Some(os) = &report.outcomes {
        if os.len() > 0 {
            let mut i: usize = 0;
            while i < os.len()
                invariant
                    i <= os.len(),
                    ts@ == text_or(report.timestamp, Seq::empty()),
                    out@.len() == i,
                    forall|k: int|
                        0 <= k < i ==> entry_is(
                            #[trigger] out@[k],
                            cycle,
                            ts@,
                            text_or(os@[k].action_kind, "action"@),
                            outcome_text(os@[k]),
                        ),
                decreases os.len() - i,
            {
                let o = &os[i];
                let kind = text_field(&o.action_kind, "action");
                let raw: &str = match &o.detail {
                    Some(d) if !d.as_str().is_empty() => d.as_str(),
                    _ => match &o.action_description {
                        Some(a) => a.as_str(),
                        None => "(no detail)",
                    },
                };
                out.push(action_entry(cycle, ts, kind, raw));
                i = i + 1;
            }
            return out;
        }
    }
    if let Some(ps) = &report.planned_actions {
        if ps.len() > 0 {
            let mut i: usize = 0;
            while i < ps.len()
                invariant
                    i <= ps.len(),
                    ts@ == text_or(report.timestamp, Seq::empty()),
                    out@.len() == i,
                    forall|k: int|
                        0 <= k < i ==> entry_is(
                            #[trigger] out@[k],
                            cycle,
                            ts@,
                            text_or(ps@[k].kind, "action"@),
                            planned_text(ps@[k]),
                        ),
                decreases ps.len() - i,
            {
                let a = &ps[i];
                let kind = text_field(&a.kind, "action");
                let desc: &str = match &a.description {
                    Some(d) if !d.as_str().is_empty() => d.as_str(),
                    _ => "(no description)",
                };
                out.push(action_entry(cycle, ts, kind, desc));
                i = i + 1;
            }
            return out;
        }
    }
    let summary: &str = match &report.top_summary {
        Some(s) => s.as_str(),
        None => match &report.summary {
            Some(s) => s.as_str(),
            None => match &report.actions_taken {
                Some(s) => s.as_str(),
                None => "",
            },
        },
    };
    if !summary.is_empty() {
        out.push(action_entry(cycle, ts, "cycle-summary", summary));
    }
    out
}


/// Law: every lifecycle state is labelled with its own name: `proposed`,
/// `not_started`, `in_progress(p%)` with its percentage, `blocked` (with the
/// reason as detail), `paused` and `completed`; only a blocked goal has a
/// detail, and two states other than in-progress with different names get
/// different labels.
pub proof fn lemma_goal_labels(g: GoalProgress, h: GoalProgress)
    ensures
        g == GoalProgress::Proposed ==> goal_status_spec(g) == ("proposed"@, None::<Seq<char>>),
        g == GoalProgress::NotStarted ==> goal_status_spec(g) == ("not_started"@, None::<Seq<char>>),
        g == GoalProgress::Paused ==> goal_status_spec(g) == ("paused"@, None::<Seq<char>>),
        g == GoalProgress::Completed ==> goal_status_spec(g) == ("completed"@, None::<Seq<char>>),
        g matches GoalProgress::Blocked(r) ==> goal_status_spec(g) == ("blocked"@, Some(r@)),
        g matches GoalProgress::InProgress { percent } ==> goal_status_spec(g).0 == "in_progress("@ + decimal(
            percent as nat,
        ) + "%)"@ && goal_status_spec(g).1 is None,
        !(g is InProgress) && !(h is InProgress) && goal_status_spec(g).0 == goal_status_spec(h).0 ==> (
            g is Proposed <==> h is Proposed) && (g is NotStarted <==> h is NotStarted) && (g is Blocked <==> h is Blocked)
            && (g is Paused <==> h is Paused) && (g is Completed <==> h is Completed),
{
    reveal_strlit("proposed");
    reveal_strlit("not_started");
    reveal_strlit("blocked");
    reveal_strlit("paused");
    reveal_strlit("completed");
    if !(g is InProgress) && !(h is InProgress) && goal_status_spec(g).0 == goal_status_spec(h).0 {
        let a = goal_status_spec(g).0;
        let b = goal_status_spec(h).0;
        assert(a.len() == b.len());
        assert(a[0] == b[0] && a[1] == b[1] && a[2] == b[2]);
    }
}

} // verus!
