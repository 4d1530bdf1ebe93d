//! Decisions of the Goals tab's board edits: the order active goals are
//! shown in, which goal an edit applies to, and the errors answered.

use vstd::prelude::*;
use crate::chat_store::{chars_le, lemma_text_le_antisym, lemma_text_le_total, lemma_text_le_trans, text_le};
use crate::goals::GoalProgress;
use crate::num::{decimal, push_decimal};
use crate::text::{chars_eq, from_chars, push_str, to_chars, trim_chars, trim_seq};

verus! {

// ---------------------------------------------------------------------------
// Display order of the active goals
// ---------------------------------------------------------------------------

/// Goal key order: by priority (1 first), then by id.
pub open spec fn key_le(a: (u32, Seq<char>), b: (u32, Seq<char>)) -> bool {
    a.0 < b.0 || (a.0 == b.0 && text_le(a.1, b.1))
}

/// The key of goal `i`: its priority and id.
pub open spec fn key_of(keys: Seq<(u32, String)>, i: int) -> (u32, Seq<char>) {
    (keys[i].0, keys[i].1@)
}

/// Goal `x` is shown before goal `y`: a smaller key, or the same key and an
/// earlier place on the board (the sort is stable).
pub open spec fn shown_before(keys: Seq<(u32, String)>, x: usize, y: usize) -> bool {
    ||| (key_le(key_of(keys, x as int), key_of(keys, y as int)) && key_of(keys, x as int) != key_of(keys, y as int))
    ||| (key_of(keys, x as int) == key_of(keys, y as int) && x < y)
}

proof fn lemma_key_total(a: (u32, Seq<char>), b: (u32, Seq<char>))
    ensures
        key_le(a, b) || key_le(b, a),
{
    lemma_text_le_total(a.1, b.1);
}

proof fn lemma_key_trans(a: (u32, Seq<char>), b: (u32, Seq<char>), c: (u32, Seq<char>))
    requires
        key_le(a, b),
        key_le(b, c),
    ensures
        key_le(a, c),
{
    if a.0 == b.0 && b.0 == c.0 {
        lemma_text_le_trans(a.1, b.1, c.1);
    }
}

proof fn lemma_key_antisym(a: (u32, Seq<char>), b: (u32, Seq<char>))
    requires
        key_le(a, b),
        key_le(b, a),
    ensures
        a == b,
{
    lemma_text_le_antisym(a.1, b.1);
}

fn key_le_exec(keys: &[(u32, String)], x: usize, y: usize) -> (r: bool)
    requires
        x < keys@.len(),
        y < keys@.len(),
    ensures
        r == key_le(key_of(keys@, x as int), key_of(keys@, y as int)),
{
    let (px, ix) = (keys[x].0, &keys[x].1);
    let (py, iy) = (keys[y].0, &keys[y].1);
    if px != py {
        return px < py;
    }
    let a = to_chars(ix.as_str());
    let b = to_chars(iy.as_str());
    chars_le(a.as_slice(), b.as_slice())
}

/// Position `i` occurs in `r`.
pub open spec fn lists(r: Seq<usize>, i: int) -> bool {
    exists|a: int| 0 <= a < r.len() && #[trigger] r[a] == i
}

/// The order active goals are shown in: by priority, then id, ties in
/// board order; every goal exactly once.
pub open spec fn display_order(keys: Seq<(u32, String)>, r: Seq<usize>) -> bool {
    &&& r.len() == keys.len()
    &&& forall|a: int| 0 <= a < r.len() ==> #[trigger] r[a] < keys.len()
    &&& forall|a: int, b: int| 0 <= a < b < r.len() ==> shown_before(keys, #[trigger] r[a], #[trigger] r[b])
    &&& forall|i: int| 0 <= i < keys.len() ==> #[trigger] lists(r, i)
}

/// The positions of the active goals in display order (a stable sort by
/// priority, then id).
pub fn active_order(keys: &[(u32, String)]) -> (r: Vec<usize>)
    ensures
        display_order(keys@, r@),
{
    let mut r: Vec<usize> = Vec::new();
    let mut i: usize = 0;
    while i < keys.len()
        invariant
            i <= keys@.len(),
            r@.len() == i,
            forall|a: int| 0 <= a < r@.len() ==> #[trigger] r@[a] < i,
            forall|a: int, b: int| 0 <= a < b < r@.len() ==> shown_before(keys@, #[trigger] r@[a], #[trigger] r@[b]),
            forall|k: int| 0 <= k < i ==> #[trigger] lists(r@, k),
        decreases keys@.len() - i,
    {
        let mut j: usize = 0;
        while j < r.len()
            invariant
                j <= r@.len(),
                i < keys@.len(),
                forall|a: int| 0 <= a < r@.len() ==> #[trigger] r@[a] < i,
                forall|a: int| 0 <= a < j ==> key_le(key_of(keys@, #[trigger] r@[a] as int), key_of(keys@, i as int)),
            ensures
                j <= r@.len(),
                forall|a: int| 0 <= a < j ==> key_le(key_of(keys@, #[trigger] r@[a] as int), key_of(keys@, i as int)),
                j < r@.len() ==> !key_le(key_of(keys@, r@[j as int] as int), key_of(keys@, i as int)),
            decreases r@.len() - j,
        {
            if !key_le_exec(keys, r[j], i) {
                break;
            }
            j = j + 1;
        }
        let ghost old_r = r@;
        proof {
            let ki = key_of(keys@, i as int);
            assert forall|a: int| 0 <= a < j implies shown_before(keys@, #[trigger] old_r[a], i) by {
                let ka = key_of(keys@, old_r[a] as int);
                if ka == ki {
                } else {
                }
            }
            if j < old_r.len() {
                let kj = key_of(keys@, old_r[j as int] as int);
                lemma_key_total(kj, ki);
                assert forall|a: int| j <= a < old_r.len() implies shown_before(keys@, i, #[trigger] old_r[a]) by {
                    let ka = key_of(keys@, old_r[a] as int);
                    if a > j {
                        assert(shown_before(keys@, old_r[j as int], old_r[a]));
                        lemma_key_total(kj, ka);
                        assert(key_le(kj, ka));
                        lemma_key_trans(ki, kj, ka);
                        if ki == ka {
                            lemma_key_antisym(kj, ka);
                        }
                    }
                }
            }
        }
        r.insert(j, i);
        proof {
            let n = r@;
            assert(n =~= old_r.insert(j as int, i));
            assert forall|a: int, b: int| 0 <= a < b < n.len() implies shown_before(keys@, #[trigger] n[a], #[trigger] n[b]) by {
                if b < j {
                    assert(n[a] == old_r[a] && n[b] == old_r[b]);
                } else if b == j {
                    assert(n[a] == old_r[a]);
                } else if a < j {
                    assert(n[a] == old_r[a] && n[b] == old_r[b - 1]);
                    let ka = key_of(keys@, old_r[a] as int);
                    let kb = key_of(keys@, old_r[b - 1] as int);
                    let ki = key_of(keys@, i as int);
                    assert(shown_before(keys@, old_r[a], i));
                    assert(shown_before(keys@, i, old_r[b - 1]));
                    lemma_key_trans(ka, ki, kb);
                    if ka == kb {
                        lemma_key_antisym(ka, ki);
                        lemma_key_antisym(ki, kb);
                    }
                } else if a == j {
                    assert(n[b] == old_r[b - 1]);
                } else {
                    assert(n[a] == old_r[a - 1] && n[b] == old_r[b - 1]);
                }
            }
            assert forall|k: int| 0 <= k < i + 1 implies #[trigger] lists(n, k) by {
                if k == i {
                    assert(n[j as int] == k);
                } else {
                    assert(lists(old_r, k));
                    let a0 = choose|a: int| 0 <= a < old_r.len() && #[trigger] old_r[a] == k;
                    if a0 < j {
                        assert(n[a0] == k);
                    } else {
                        assert(n[a0 + 1] == k);
                    }
                }
            }
        }
        i = i + 1;
    }
    r
}

// ---------------------------------------------------------------------------
// Which goal an edit applies to
// ---------------------------------------------------------------------------

/// Position of the first id equal to `id`, if any.
pub open spec fn first_id(ids: Seq<String>, id: Seq<char>) -> Option<int>
    decreases ids.len(),
{
    if ids.len() == 0 {
        None
    } else {
        match first_id(ids.drop_last(), id) {
            Some(k) => Some(k),
            None => if ids.last()@ == id {
                Some(ids.len() - 1)
            } else {
                None
            },
        }
    }
}

/// Position of the first id equal to `id`, if any.
pub fn find_id(ids: &[String], id: &str) -> (r: Option<usize>)
    ensures
        match r {
            Some(k) => first_id(ids@, id@) == Some(k as int),
            None => first_id(ids@, id@) is None,
        },
{
    let target = to_chars(id);
    let mut i: usize = 0;
    while i < ids.len()
        invariant
            i <= ids@.len(),
            target@ == id@,
            first_id(ids@.take(i as int), id@) is None,
        decreases ids@.len() - i,
    {
        assert(ids@.take(i + 1).drop_last() =~= ids@.take(i as int));
        assert(ids@.take(i + 1).last() == ids@[i as int]);
        let c = to_chars(ids[i].as_str());
        if chars_eq(c.as_slice(), target.as_slice()) {
            proof {
                lemma_first_id_prefix(ids@, id@, i as int + 1);
            }
            return Some(i);
        }
        i = i + 1;
    }
    assert(ids@.take(ids@.len() as int) =~= ids@);
    None
}

proof fn lemma_first_id_prefix(ids: Seq<String>, id: Seq<char>, n: int)
    requires
        0 <= n <= ids.len(),
        first_id(ids.take(n), id) is Some,
    ensures
        first_id(ids, id) == first_id(ids.take(n), id),
    decreases ids.len() - n,
{
    if n < ids.len() {
        assert(ids.take(n + 1).drop_last() =~= ids.take(n));
        lemma_first_id_prefix(ids, id, n + 1);
    } else {
        assert(ids.take(n) =~= ids);
    }
}

/// The error when an active-goal status update names no active goal.
pub const ACTIVE_GOAL_NOT_FOUND: &'static str = "goal not found in active goals";

/// The error when a demotion names no active goal.
pub const DEMOTE_NOT_FOUND: &'static str = "active goal not found";

/// The error when a promotion names no backlog item.
pub const BACKLOG_NOT_FOUND: &'static str = "backlog item not found";

/// The error when a removal names no goal at all.
pub const GOAL_NOT_FOUND: &'static str = "goal not found";

/// The goal a status update applies to: the first active goal with the id.
pub fn status_update_target(active_ids: &[String], id: &str) -> (r: Result<usize, String>)
    ensures
        match first_id(active_ids@, id@) {
            Some(k) => r == Ok::<usize, String>(k as usize),
            None => r matches Err(e) && e@ == ACTIVE_GOAL_NOT_FOUND@,
        },
{
    match find_id(active_ids, id) {
        Some(k) => Ok(k),
        None => Err(ACTIVE_GOAL_NOT_FOUND.to_owned()),
    }
}

/// The goal a demotion moves to the backlog: the first active goal with the
/// id.
pub fn demote_target(active_ids: &[String], id: &str) -> (r: Result<usize, String>)
    ensures
        match first_id(active_ids@, id@) {
            Some(k) => r == Ok::<usize, String>(k as usize),
            None => r matches Err(e) && e@ == DEMOTE_NOT_FOUND@,
        },
{
    match find_id(active_ids, id) {
        Some(k) => Ok(k),
        None => Err(DEMOTE_NOT_FOUND.to_owned()),
    }
}

/// `Maximum <max> active goals reached.` and the advice given.
pub open spec fn max_reached(max_active: usize, advice: Seq<char>) -> Seq<char> {
    "Maximum "@ + decimal(max_active as nat) + " active goals reached. "@ + advice
}

fn max_reached_of(max_active: usize, advice: &str) -> (s: String)
    ensures
        s@ == max_reached(max_active, advice@),
{
    let mut out = to_chars("Maximum ");
    push_decimal(&mut out, max_active as u64);
    push_str(&mut out, " active goals reached. ");
    push_str(&mut out, advice);
    from_chars(out.as_slice())
}

/// The backlog item a promotion makes active: refused when the active board
/// is full, else the first backlog item with the id.
pub fn promote_target(active_len: usize, max_active: usize, backlog_ids: &[String], id: &str) -> (r: Result<
    usize,
    String,
>)
    ensures
        active_len >= max_active ==> (r matches Err(e) && e@ == max_reached(max_active, "Remove one first."@)),
        active_len < max_active ==> match first_id(backlog_ids@, id@) {
            Some(k) => r == Ok::<usize, String>(k as usize),
            None => r matches Err(e) && e@ == BACKLOG_NOT_FOUND@,
        },
{
    if active_len >= max_active {
        return Err(max_reached_of(max_active, "Remove one first."));
    }
    match find_id(backlog_ids, id) {
        Some(k) => Ok(k),
        None => Err(BACKLOG_NOT_FOUND.to_owned()),
    }
}

/// The positions of the ids that are not `id`, in order.
pub open spec fn kept_ids(ids: Seq<String>, id: Seq<char>) -> Seq<usize>
    decreases ids.len(),
{
    if ids.len() == 0 {
        Seq::empty()
    } else if ids.last()@ == id {
        kept_ids(ids.drop_last(), id)
    } else {
        kept_ids(ids.drop_last(), id).push((ids.len() - 1) as usize)
    }
}

proof fn lemma_kept_ids_len(ids: Seq<String>, id: Seq<char>)
    ensures
        kept_ids(ids, id).len() <= ids.len(),
        kept_ids(ids, id).len() == ids.len() <==> first_id(ids, id) is None,
    decreases ids.len(),
{
    if ids.len() > 0 {
        lemma_kept_ids_len(ids.drop_last(), id);
    }
}

fn keep_positions(ids: &[String], id: &str) -> (r: Vec<usize>)
    ensures
        r@ == kept_ids(ids@, id@),
{
    let target = to_chars(id);
    let mut r: Vec<usize> = Vec::new();
    let mut i: usize = 0;
    while i < ids.len()
        invariant
            i <= ids@.len(),
            target@ == id@,
            r@ == kept_ids(ids@.take(i as int), id@),
        decreases ids@.len() - i,
    {
        assert(ids@.take(i + 1).drop_last() =~= ids@.take(i as int));
        assert(ids@.take(i + 1).last() == ids@[i as int]);
        let c = to_chars(ids[i].as_str());
        if !chars_eq(c.as_slice(), target.as_slice()) {
            r.push(i);
        }
        i = i + 1;
    }
    assert(ids@.take(ids@.len() as int) =~= ids@);
    r
}

/// Removing a goal by id from both lists: the positions kept in each, or
/// `goal not found` when neither list has it.
pub fn goal_removal(active_ids: &[String], backlog_ids: &[String], id: &str) -> (r: Result<
    (Vec<usize>, Vec<usize>),
    String,
>)
    ensures
        (first_id(active_ids@, id@) is None && first_id(backlog_ids@, id@) is None) ==> (r matches Err(e)
            && e@ == GOAL_NOT_FOUND@),
        (first_id(active_ids@, id@) is Some || first_id(backlog_ids@, id@) is Some) ==> (r matches Ok(
            (a, b),
        ) && a@ == kept_ids(active_ids@, id@) && b@ == kept_ids(backlog_ids@, id@)),
{
    let a = keep_positions(active_ids, id);
    let b = keep_positions(backlog_ids, id);
    proof {
        lemma_kept_ids_len(active_ids@, id@);
        lemma_kept_ids_len(backlog_ids@, id@);
    }
    if a.len() == active_ids.len() && b.len() == backlog_ids.len() {
        Err(GOAL_NOT_FOUND.to_owned())
    } else {
        Ok((a, b))
    }
}

// ---------------------------------------------------------------------------
// Status updates
// ---------------------------------------------------------------------------

/// The error when a status update gives no status.
pub const STATUS_REQUIRED: &'static str = "status is required";

/// The status a status name asks for (`blocked` with its reason, or
/// `unspecified`); `None` for a name that is not one.
pub open spec fn status_named(name: Seq<char>, reason: Option<Seq<char>>) -> Option<(u8, Seq<char>)> {
    if name == "proposed"@ {
        Some((0u8, Seq::empty()))
    } else if name == "not-started"@ {
        Some((1u8, Seq::empty()))
    } else if name == "in-progress"@ {
        Some((2u8, Seq::empty()))
    } else if name == "blocked"@ {
        Some((
            3u8,
            match reason {
                Some(r) => r,
                None => "unspecified"@,
            },
        ))
    } else if name == "paused"@ {
        Some((4u8, Seq::empty()))
    } else if name == "completed"@ {
        Some((5u8, Seq::empty()))
    } else {
        None
    }
}

/// A status in the shape `status_named` gives it.
pub open spec fn status_shape(g: GoalProgress) -> (u8, Seq<char>) {
    match g {
        GoalProgress::Proposed => (0u8, Seq::empty()),
        GoalProgress::NotStarted => (1u8, Seq::empty()),
        GoalProgress::InProgress { percent } => (2u8, Seq::empty()),
        GoalProgress::Blocked(r) => (3u8, r@),
        GoalProgress::Paused => (4u8, Seq::empty()),
        GoalProgress::Completed => (5u8, Seq::empty()),
    }
}

/// The status a status update asks for: `proposed`, `not-started`,
/// `in-progress` (at 0%), `blocked` (with its reason, `unspecified` when
/// none), `paused` or `completed`; an error when the status is missing or
/// is another word.
pub fn parse_goal_status(status: Option<&str>, reason: Option<&str>) -> (r: Result<GoalProgress, String>)
    ensures
        status is None ==> (r matches Err(e) && e@ == STATUS_REQUIRED@),
        status matches Some(s) ==> match status_named(
            s@,
            match reason {
                Some(x) => Some(x@),
                None => None,
            },
        ) {
            Some(shape) => r matches Ok(g) && status_shape(g) == shape && (g matches GoalProgress::InProgress {
                percent,
            } ==> percent == 0),
            None => r matches Err(e) && e@ == "unknown status: "@ + s@,
        },
{
    let s = match status {
        Some(s) => s,
        None => return Err(STATUS_REQUIRED.to_owned()),
    };
    let cs = to_chars(s);
    proof {
        reveal_strlit("proposed");
        reveal_strlit("not-started");
        reveal_strlit("in-progress");
        reveal_strlit("blocked");
        reveal_strlit("paused");
        reveal_strlit("completed");
    }
    if chars_eq(cs.as_slice(), to_chars("proposed").as_slice()) {
        Ok(GoalProgress::Proposed)
    } else if chars_eq(cs.as_slice(), to_chars("not-started").as_slice()) {
        Ok(GoalProgress::NotStarted)
    } else if chars_eq(cs.as_slice(), to_chars("in-progress").as_slice()) {
        Ok(GoalProgress::InProgress { percent: 0 })
    } else if chars_eq(cs.as_slice(), to_chars("blocked").as_slice()) {
        let why = match reason {
            Some(x) => x.to_owned(),
            None => "unspecified".to_owned(),
        };
        Ok(GoalProgress::Blocked(why))
    } else if chars_eq(cs.as_slice(), to_chars("paused").as_slice()) {
        Ok(GoalProgress::Paused)
    } else if chars_eq(cs.as_slice(), to_chars("completed").as_slice()) {
        Ok(GoalProgress::Completed)
    } else {
        let mut out = to_chars("unknown status: ");
        push_str(&mut out, s);
        Err(from_chars(out.as_slice()))
    }
}

// ---------------------------------------------------------------------------
// Adding a goal
// ---------------------------------------------------------------------------

/// The error when a goal is added without a description.
pub const DESCRIPTION_REQUIRED: &'static str = "description is required";

/// The error when an active goal would get priority 0.
pub const PRIORITY_TOO_LOW: &'static str = "priority must be >= 1";

/// Priority of an added active goal when none is given.
pub const DEFAULT_PRIORITY: u64 = 3;

/// Where an added goal goes.
pub enum AddTarget {
    Backlog,
    Active { priority: u32 },
}

/// An accepted goal addition: the trimmed description and where it goes.
pub struct AddPlan {
    pub description: String,
    pub target: AddTarget,
}

/// Checks a goal addition: the description (trimmed) must not be empty; a
/// `backlog` addition is then accepted; an active one is refused when the
/// board is full, and when its priority (3 by default, cut to 32 bits) is 0.
pub fn add_goal_plan(
    description: Option<&str>,
    goal_type: Option<&str>,
    priority: Option<u64>,
    active_len: usize,
    max_active: usize,
) -> (r: Result<AddPlan, String>)
    ensures
        (description is None || trim_seq(description->0@).len() == 0) ==> (r matches Err(e) && e@
            == DESCRIPTION_REQUIRED@),
        description is Some && trim_seq(description->0@).len() > 0 ==> {
            let d = description->0;
            let backlog = goal_type matches Some(t) && t@ == "backlog"@;
            let p = match priority {
                Some(p) => p,
                None => DEFAULT_PRIORITY,
            };
            if backlog {
                r matches Ok(plan) && plan.description@ == trim_seq(d@) && plan.target is Backlog
            } else if active_len >= max_active {
                r matches Err(e) && e@ == max_reached(max_active, "Remove one first or add to backlog."@)
            } else if (p as u32) < 1 {
                r matches Err(e) && e@ == PRIORITY_TOO_LOW@
            } else {
                r matches Ok(plan) && plan.description@ == trim_seq(d@) && plan.target
                    == AddTarget::Active { priority: p as u32 }
            }
        },
{
    let d = match description {
        Some(d) => {
            let t = trim_chars(to_chars(d).as_slice());
            if t.len() == 0 {
                return Err(DESCRIPTION_REQUIRED.to_owned());
            }
            from_chars(t.as_slice())
        },
        None => return Err(DESCRIPTION_REQUIRED.to_owned()),
    };
    proof {
        reveal_strlit("backlog");
    }
    let backlog = match goal_type {
        Some(t) => chars_eq(to_chars(t).as_slice(), to_chars("backlog").as_slice()),
        None => false,
    };
    if backlog {
        return Ok(AddPlan { description: d, target: AddTarget::Backlog });
    }
    if active_len >= max_active {
        return Err(max_reached_of(max_active, "Remove one first or add to backlog."));
    }
    let p: u64 = match priority {
        Some(p) => p,
        None => DEFAULT_PRIORITY,
    };
    let p32: u32 = p as u32;
    if p32 < 1 {
        return Err(PRIORITY_TOO_LOW.to_owned());
    }
    Ok(AddPlan { description: d, target: AddTarget::Active { priority: p32 } })
}

// ---------------------------------------------------------------------------
// Seeding an empty board
// ---------------------------------------------------------------------------

/// One goal the board is seeded with.
pub struct SeedGoal {
    pub id: &'static str,
    pub description: &'static str,
    pub priority: u32,
}

/// The active goals an empty board is seeded with, in order.
pub fn seed_active_goals() -> (v: Vec<SeedGoal>)
    ensures
        v@.len() == 3,
        v@[0].id@ == "self-improvement"@ && v@[0].priority == 1,
        v@[0].description@ == "Continuously improve own capabilities through gym scenarios and self-evaluation"@,
        v@[1].id@ == "knowledge-growth"@ && v@[1].priority == 2,
        v@[1].description@ == "Expand knowledge base through meetings, research, and cognitive memory consolidation"@,
        v@[2].id@ == "operational-health"@ && v@[2].priority == 3,
        v@[2].description@ == "Maintain system health: budget compliance, resource usage, and error rates within thresholds"@,
{
    let mut v: Vec<SeedGoal> = Vec::new();
    v.push(SeedGoal {
        id: "self-improvement",
        description: "Continuously improve own capabilities through gym scenarios and self-evaluation",
        priority: 1,
    });
    v.push(SeedGoal {
        id: "knowledge-growth",
        description: "Expand knowledge base through meetings, research, and cognitive memory consolidation",
        priority: 2,
    });
    v.push(SeedGoal {
        id: "operational-health",
        description: "Maintain system health: budget compliance, resource usage, and error rates within thresholds",
        priority: 3,
    });
    v
}

/// One backlog item the board is seeded with (its score, a float, is set
/// where the board is built).
pub struct SeedBacklogItem {
    pub id: &'static str,
    pub description: &'static str,
    pub source: &'static str,
}

/// The backlog items an empty board is seeded with, in order.
pub fn seed_backlog_items() -> (v: Vec<SeedBacklogItem>)
    ensures
        v@.len() == 2,
        v@[0].id@ == "distributed-sync"@ && v@[0].source@ == "dashboard-seed"@,
        v@[0].description@ == "Establish hive mind sync with remote Simard instances for cross-agent knowledge sharing"@,
        v@[1].id@ == "meeting-quality"@ && v@[1].source@ == "dashboard-seed"@,
        v@[1].description@ == "Improve meeting facilitation quality and actionable outcome generation"@,
{
    let mut v: Vec<SeedBacklogItem> = Vec::new();
    v.push(SeedBacklogItem {
        id: "distributed-sync",
        description: "Establish hive mind sync with remote Simard instances for cross-agent knowledge sharing",
        source: "dashboard-seed",
    });
    v.push(SeedBacklogItem {
        id: "meeting-quality",
        description: "Improve meeting facilitation quality and actionable outcome generation",
        source: "dashboard-seed",
    });
    v
}

/// The reply after seeding.
pub const SEEDED_MESSAGE: &'static str = "Seeded 3 active goals and 2 backlog items";

/// The reply when the board already has active goals.
pub const ALREADY_SEEDED_MESSAGE: &'static str = "Goals already exist";

/// The current activity recorded on a seeded goal.
pub fn seeded_activity(now: &str) -> (s: String)
    ensures
        s@ == "Goal seeded via dashboard at "@ + now@,
{
    let mut out = to_chars("Goal seeded via dashboard at ");
    push_str(&mut out, now);
    from_chars(out.as_slice())
}

/// A board is seeded only when it has no active goal.
pub fn needs_seeding(active_len: usize) -> (b: bool)
    ensures
        b == (active_len == 0),
{
    active_len == 0
}

} // verus!
