//! The Goals tab's reply: the active goals in display order with their
//! rendered activity, the backlog (the board's items, then the meeting
//! facts from memory not listed yet), the lifecycle breakdown and the
//! counts, or, when the live board could not be read, the fail-closed error
//! reply with zeroed counts and empty lists.

use vstd::prelude::*;
use crate::goal_board::{active_order, display_order};
use crate::goals::{
    active_status_breakdown, count_bucket, fact_listable_spec, human_backlog_id_spec,
    human_source_label_spec, id_seen, memory_backlog_entry, GoalProgress, MemoryBacklogEntry,
    StatusBreakdown,
};
use crate::goals_status::{
    classify_spec, clean_detail_spec, cap_chars_spec, is_waiting, render_status_and_detail,
    StatusChip, DETAIL_MAX_CHARS,
};

verus! {

/// The error of the fail-closed reply.
pub const GOAL_BOARD_READ_FAILED: &'static str = "goal-board read failed";

/// An active goal of the board, as far as the reply orders and renders it.
pub struct ActiveGoalRow {
    pub id: String,
    pub priority: u32,
    pub status: GoalProgress,
    pub current_activity: Option<String>,
}

/// A shown active goal: its position on the board and its rendered
/// activity.
pub struct ShownGoal {
    pub index: usize,
    pub status_chip: StatusChip,
    pub detail: String,
    pub detail_full: String,
}

/// The reply of the Goals tab.
pub struct GoalsView {
    /// The active goals, in display order.
    pub active: Vec<ShownGoal>,
    pub active_count: usize,
    /// The backlog.
    pub backlog: Vec<BacklogEntry>,
    /// How many backlog entries are listed.
    pub backlog_count: usize,
    /// Per-lifecycle counts of the active goals; absent in the error reply.
    pub breakdown: Option<StatusBreakdown>,
    /// Set in the fail-closed reply.
    pub error: Option<&'static str>,
}

/// What the status chip, the detail and the full detail of an activity are.
pub open spec fn rendered(raw: Option<Seq<char>>) -> (StatusChip, Seq<char>, Seq<char>) {
    let full = match raw {
        Some(x) => x,
        None => Seq::empty(),
    };
    if is_waiting(raw) {
        (StatusChip::Waiting, Seq::empty(), full)
    } else {
        (classify_spec(full), cap_chars_spec(clean_detail_spec(full), DETAIL_MAX_CHARS as nat), full)
    }
}

/// The ordering keys of the rows: (priority, id).
pub open spec fn row_keys(rows: Seq<ActiveGoalRow>) -> Seq<(u32, String)> {
    rows.map_values(|r: ActiveGoalRow| (r.priority, r.id))
}

/// The ids of the rows.
pub open spec fn row_ids(rows: Seq<ActiveGoalRow>) -> Seq<Seq<char>> {
    rows.map_values(|r: ActiveGoalRow| r.id@)
}

/// The statuses of the rows.
pub open spec fn row_statuses(rows: Seq<ActiveGoalRow>) -> Seq<GoalProgress> {
    rows.map_values(|r: ActiveGoalRow| r.status)
}

/// The activity of a row, as characters.
pub open spec fn row_activity(r: ActiveGoalRow) -> Option<Seq<char>> {
    match r.current_activity {
        Some(a) => Some(a@),
        None => None,
    }
}

fn copy_progress(g: &GoalProgress) -> (r: GoalProgress)
    ensures
        r == *g,
{
    match g {
        GoalProgress::Proposed => GoalProgress::Proposed,
        GoalProgress::NotStarted => GoalProgress::NotStarted,
        GoalProgress::InProgress { percent } => GoalProgress::InProgress { percent: *percent },
        GoalProgress::Blocked(s) => GoalProgress::Blocked(s.clone()),
        GoalProgress::Paused => GoalProgress::Paused,
        GoalProgress::Completed => GoalProgress::Completed,
    }
}

/// A fact found in memory for the backlog.
pub struct MemoryFact {
    pub node_id: String,
    pub concept: String,
    pub content: String,
}

/// A backlog entry of the reply.
pub enum BacklogEntry {
    /// The board's backlog item at `index`.
    Board { index: usize },
    /// The memory fact at `fact`, listed as `entry`.
    Memory { fact: usize, entry: MemoryBacklogEntry },
}

/// The ids of a list of strings, as characters.
pub open spec fn ids_of(v: Seq<String>) -> Seq<Seq<char>> {
    v.map_values(|s: String| s@)
}

/// Which facts are listed, by position, and the ids seen afterwards: going
/// through the facts in order, a fact is listed when it is listable and
/// its node id was not seen yet, and its id is then seen.
pub open spec fn listed_facts(seen: Seq<Seq<char>>, facts: Seq<MemoryFact>) -> (Seq<int>, Seq<Seq<char>>)
    decreases facts.len(),
{
    if facts.len() == 0 {
        (Seq::empty(), seen)
    } else {
        let (taken, seen2) = listed_facts(seen, facts.drop_last());
        let f = facts.last();
        if fact_listable_spec(f.concept@, f.content@) && !seen2.contains(f.node_id@) {
            (taken.push(facts.len() - 1), seen2.push(f.node_id@))
        } else {
            (taken, seen2)
        }
    }
}

/// `e` lists the memory fact `f`, found at position `pos`, under its id,
/// human-readable title and source label.
pub open spec fn memory_entry_for(e: BacklogEntry, pos: int, f: MemoryFact) -> bool {
    match e {
        BacklogEntry::Memory { fact, entry } => {
            &&& fact == pos
            &&& entry.id@ == f.node_id@
            &&& entry.display_id@ == human_backlog_id_spec(f.content@, f.concept@)
            &&& entry.source@ == human_source_label_spec(f.concept@)
        },
        BacklogEntry::Board { .. } => false,
    }
}

/// The id a backlog entry is listed under.
pub open spec fn entry_id(e: BacklogEntry, board_ids: Seq<String>) -> Seq<char> {
    match e {
        BacklogEntry::Board { index } => board_ids[index as int]@,
        BacklogEntry::Memory { entry, .. } => entry.id@,
    }
}

proof fn lemma_id_seen_view(seen: Seq<String>, id: Seq<char>)
    ensures
        id_seen(seen, id) <==> ids_of(seen).contains(id),
{
    if id_seen(seen, id) {
        let i = choose|i: int| 0 <= i < seen.len() && (#[trigger] seen[i])@ == id;
        assert(ids_of(seen)[i] == id);
    }
    if ids_of(seen).contains(id) {
        let i = choose|i: int| 0 <= i < ids_of(seen).len() && ids_of(seen)[i] == id;
        assert(seen[i]@ == id);
    }
}

/// `r` is the backlog for the active goal ids `active`, the board's backlog
/// item ids `board_ids` and the memory facts `facts`: the board's items in
/// order, then the listed facts, none under an id that is an active goal's,
/// a board item's, or that of a fact listed before it.
pub open spec fn is_backlog(r: Seq<BacklogEntry>, active: Seq<Seq<char>>, board_ids: Seq<String>, facts: Seq<MemoryFact>) -> bool {
    let n = board_ids.len();
    let taken = listed_facts(active + ids_of(board_ids), facts).0;
    &&& r.len() == n + taken.len()
    &&& forall|i: int| 0 <= i < n ==> (#[trigger] r[i]) == (BacklogEntry::Board { index: i as usize })
    &&& forall|j: int|
        0 <= j < taken.len() ==> memory_entry_for(#[trigger] r[n + j], taken[j], facts[taken[j]])
    &&& forall|j: int|
        n <= j < r.len() ==> !active.contains(#[trigger] entry_id(r[j], board_ids))
            && !ids_of(board_ids).contains(entry_id(r[j], board_ids))
    &&& forall|i: int, j: int|
        n <= i < j < r.len() ==> entry_id(#[trigger] r[i], board_ids) != entry_id(
            #[trigger] r[j],
            board_ids,
        )
}

/// The backlog of the reply: the board's backlog items in order, then each
/// memory fact that is listable and whose node id is neither an active
/// goal's id, nor a board backlog item's id, nor that of a fact listed
/// before it, with its human-readable title and source label.
pub fn goals_backlog(active_ids: &[String], board_ids: &[String], facts: &[MemoryFact]) -> (r: Vec<BacklogEntry>)
    ensures
        is_backlog(r@, ids_of(active_ids@), board_ids@, facts@),
{
    let ghost init = ids_of(active_ids@) + ids_of(board_ids@);
    let mut seen: Vec<String> = Vec::new();
    let mut a: usize = 0;
    while a < active_ids.len()
        invariant
            a <= active_ids.len(),
            ids_of(seen@) == ids_of(active_ids@).take(a as int),
        decreases active_ids.len() - a,
    {
        let c = active_ids[a].clone();
        let ghost old_seen = seen@;
        seen.push(c);
        assert(ids_of(seen@) =~= ids_of(old_seen).push(active_ids@[a as int]@));
        assert(ids_of(active_ids@).take(a + 1) =~= ids_of(active_ids@).take(a as int).push(active_ids@[a as int]@));
        a = a + 1;
    }
    let mut r: Vec<BacklogEntry> = Vec::new();
    let mut b: usize = 0;
    while b < board_ids.len()
        invariant
            b <= board_ids.len(),
            ids_of(seen@) == ids_of(active_ids@) + ids_of(board_ids@).take(b as int),
            r@.len() == b,
            forall|i: int| 0 <= i < b ==> (#[trigger] r@[i]) == (BacklogEntry::Board { index: i as usize }),
        decreases board_ids.len() - b,
    {
        let c = board_ids[b].clone();
        let ghost old_seen = seen@;
        seen.push(c);
        r.push(BacklogEntry::Board { index: b });
        assert(ids_of(seen@) =~= ids_of(old_seen).push(board_ids@[b as int]@));
        assert(ids_of(board_ids@).take(b + 1) =~= ids_of(board_ids@).take(b as int).push(board_ids@[b as int]@));
        assert(ids_of(seen@) =~= ids_of(active_ids@) + ids_of(board_ids@).take(b + 1));
        b = b + 1;
    }
    assert(ids_of(active_ids@).take(active_ids@.len() as int) =~= ids_of(active_ids@));
    assert(ids_of(board_ids@).take(board_ids@.len() as int) =~= ids_of(board_ids@));
    let n = board_ids.len();
    let mut k: usize = 0;
    while k < facts.len()
        invariant
            k <= facts.len(),
            n == board_ids@.len(),
            init == ids_of(active_ids@) + ids_of(board_ids@),
            ({
                let (taken, seen_k) = listed_facts(init, facts@.take(k as int));
                &&& ids_of(seen@) == seen_k
                &&& seen_k == init + Seq::new(taken.len(), |j: int| facts@[taken[j]].node_id@)
                &&& r@.len() == n + taken.len()
                &&& forall|j: int| 0 <= j < taken.len() ==> 0 <= #[trigger] taken[j] < k
                &&& forall|i: int| 0 <= i < n ==> (#[trigger] r@[i]) == (BacklogEntry::Board { index: i as usize })
                &&& forall|j: int|
                    0 <= j < taken.len() ==> memory_entry_for(#[trigger] r@[n + j], taken[j], facts@[taken[j]])
                &&& forall|j: int|
                    n <= j < r@.len() ==> !init.contains(#[trigger] entry_id(r@[j], board_ids@))
                &&& forall|i: int, j: int|
                    n <= i < j < r@.len() ==> entry_id(#[trigger] r@[i], board_ids@) != entry_id(
                        #[trigger] r@[j],
                        board_ids@,
                    )
            }),
        decreases facts.len() - k,
    {
        let ghost fk = facts@.take(k + 1);
        assert(fk.drop_last() =~= facts@.take(k as int));
        assert(fk.last() == facts@[k as int]);
        let ghost (taken, seen_k) = listed_facts(init, facts@.take(k as int));
        let ghost before = r@;
        let ghost seen_before = seen@;
        proof {
            lemma_id_seen_view(seen@, facts@[k as int].node_id@);
        }
        let got = memory_backlog_entry(
            &mut seen,
            facts[k].node_id.as_str(),
            facts[k].concept.as_str(),
            facts[k].content.as_str(),
        );
        match got {
            Some(entry) => {
                let ghost id = facts@[k as int].node_id@;
                r.push(BacklogEntry::Memory { fact: k, entry });
                proof {
                    let taken2 = taken.push(k as int);
                    assert(listed_facts(init, fk) == (taken2, seen_k.push(id)));
                    assert(ids_of(seen@) =~= ids_of(seen_before).push(id));
                    assert(Seq::new(taken2.len(), |j: int| facts@[taken2[j]].node_id@) =~= Seq::new(
                        taken.len(),
                        |j: int| facts@[taken[j]].node_id@,
                    ).push(id));
                    assert(ids_of(seen@) == init + Seq::new(taken2.len(), |j: int| facts@[taken2[j]].node_id@));
                    assert forall|j: int| 0 <= j < taken2.len() implies memory_entry_for(#[trigger] r@[n + j], taken2[j], facts@[taken2[j]]) by {
                        if j < taken.len() {
                            assert(r@[n + j] == before[n + j]);
                        }
                    }
                    assert(!seen_k.contains(id));
                    assert(entry_id(r@[r@.len() - 1], board_ids@) == id);
                    assert forall|j: int| n <= j < r@.len() implies !init.contains(#[trigger] entry_id(r@[j], board_ids@)) by {
                        if j < before.len() {
                            assert(r@[j] == before[j]);
                        } else {
                            if init.contains(id) {
                                let x = choose|x: int| 0 <= x < init.len() && init[x] == id;
                                assert(seen_k[x] == id);
                            }
                        }
                    }
                    assert forall|i: int, j: int| n <= i < j < r@.len() implies entry_id(#[trigger] r@[i], board_ids@)
                        != entry_id(#[trigger] r@[j], board_ids@) by {
                        assert(r@[i] == before[i]);
                        if j < before.len() {
                            assert(r@[j] == before[j]);
                        } else {
                            let jj = i - n;
                            assert(memory_entry_for(before[n + jj], taken[jj], facts@[taken[jj]]));
                            assert(entry_id(before[i], board_ids@) == facts@[taken[jj]].node_id@);
                            assert(seen_k[init.len() + jj] == facts@[taken[jj]].node_id@);
                        }
                    }
                }
            },
            None => {
                proof {
                    assert(listed_facts(init, fk) == (taken, seen_k));
                }
            },
        }
        k = k + 1;
    }
    assert(facts@.take(facts@.len() as int) =~= facts@);
    proof {
        assert forall|j: int| n <= j < r@.len() implies !ids_of(active_ids@).contains(#[trigger] entry_id(r@[j], board_ids@))
            && !ids_of(board_ids@).contains(entry_id(r@[j], board_ids@)) by {
            let id = entry_id(r@[j], board_ids@);
            if ids_of(active_ids@).contains(id) {
                let x = choose|x: int| 0 <= x < ids_of(active_ids@).len() && ids_of(active_ids@)[x] == id;
                assert(init[x] == id);
            }
            if ids_of(board_ids@).contains(id) {
                let x = choose|x: int| 0 <= x < ids_of(board_ids@).len() && ids_of(board_ids@)[x] == id;
                assert(init[ids_of(active_ids@).len() + x] == id);
            }
        }
    }
    r
}

/// Builds the Goals reply. `board` is the live board's active goals, the
/// ids of its backlog items and the meeting facts found in memory, or `None`
/// when the live read failed: then the reply is the fail-closed one, with no
/// goals, an empty backlog, zero counts, no breakdown and
/// `GOAL_BOARD_READ_FAILED`. Otherwise every active goal is shown once,
/// ordered by priority, then id, ties in board order, with its activity
/// rendered; the backlog is `goals_backlog`'s; the counts are the lengths
/// of the two lists; the breakdown counts every status once.
pub fn goals_view(board: Option<(&[ActiveGoalRow], &[String], &[MemoryFact])>) -> (v: GoalsView)
    ensures
        board is None ==> {
            &&& v.active@.len() == 0
            &&& v.active_count == 0
            &&& v.backlog@.len() == 0
            &&& v.backlog_count == 0
            &&& v.breakdown is None
            &&& v.error == Some(GOAL_BOARD_READ_FAILED)
        },
        board matches Some((rows, board_ids, facts)) ==> {
            let order = v.active@.map_values(|g: ShownGoal| g.index);
            &&& v.error is None
            &&& v.active_count == rows@.len()
            &&& v.active_count == v.active@.len()
            &&& is_backlog(v.backlog@, row_ids(rows@), board_ids@, facts@)
            &&& v.backlog_count == v.backlog@.len()
            &&& display_order(row_keys(rows@), order)
            &&& forall|k: int|
                0 <= k < v.active@.len() ==> {
                    let g = #[trigger] v.active@[k];
                    (g.status_chip, g.detail@, g.detail_full@) == rendered(row_activity(rows@[g.index as int]))
                }
            &&& v.breakdown matches Some(b) && (forall|k: int|
                0 <= k < 6 ==> #[trigger] b.counts()[k] == count_bucket(row_statuses(rows@), k as nat))
                && b.proposed + b.not_started + b.in_progress + b.blocked + b.paused + b.completed
                == v.active_count
        },
{
    let (rows, board_ids, facts) = match board {
        None => {
            return GoalsView {
                active: Vec::new(),
                backlog: Vec::new(),
                active_count: 0,
                backlog_count: 0,
                breakdown: None,
                error: Some(GOAL_BOARD_READ_FAILED),
            };
        },
        Some(b) => b,
    };
    let mut keys: Vec<(u32, String)> = Vec::new();
    let mut statuses: Vec<GoalProgress> = Vec::new();
    let mut ids: Vec<String> = Vec::new();
    let mut i: usize = 0;
    while i < rows.len()
        invariant
            i <= rows.len(),
            keys@ == row_keys(rows@).take(i as int),
            statuses@ == row_statuses(rows@).take(i as int),
            ids_of(ids@) == row_ids(rows@).take(i as int),
        decreases rows.len() - i,
    {
        keys.push((rows[i].priority, rows[i].id.clone()));
        statuses.push(copy_progress(&rows[i].status));
        let ghost old_ids = ids@;
        ids.push(rows[i].id.clone());
        proof {
            assert(keys@ =~= row_keys(rows@).take(i + 1));
            assert(statuses@ =~= row_statuses(rows@).take(i + 1));
            assert(ids_of(ids@) =~= ids_of(old_ids).push(rows@[i as int].id@));
            assert(row_ids(rows@).take(i + 1) =~= row_ids(rows@).take(i as int).push(rows@[i as int].id@));
        }
        i = i + 1;
    }
    proof {
        assert(keys@ =~= row_keys(rows@));
        assert(statuses@ =~= row_statuses(rows@));
        assert(ids_of(ids@) =~= row_ids(rows@));
    }
    let backlog = goals_backlog(ids.as_slice(), board_ids, facts);
    let order = active_order(keys.as_slice());
    let breakdown = active_status_breakdown(statuses.as_slice());
    let mut shown: Vec<ShownGoal> = Vec::new();
    let mut k: usize = 0;
    while k < order.len()
        invariant
            k <= order.len(),
            display_order(keys@, order@),
            keys@ == row_keys(rows@),
            shown@.map_values(|g: ShownGoal| g.index) == order@.take(k as int),
            forall|j: int|
                0 <= j < shown@.len() ==> {
                    let g = #[trigger] shown@[j];
                    (g.status_chip, g.detail@, g.detail_full@) == rendered(row_activity(rows@[g.index as int]))
                },
        decreases order.len() - k,
    {
        let idx = order[k];
        assert(idx < keys@.len());
        let raw: Option<&str> = match &rows[idx].current_activity {
            Some(a) => Some(a.as_str()),
            None => None,
        };
        let (chip, detail, full) = render_status_and_detail(raw);
        let ghost before = shown@;
        shown.push(ShownGoal { index: idx, status_chip: chip, detail, detail_full: full });
        proof {
            assert(shown@.map_values(|g: ShownGoal| g.index) =~= before.map_values(|g: ShownGoal| g.index).push(idx));
            assert(order@.take(k + 1) =~= order@.take(k as int).push(idx));
        }
        k = k + 1;
    }
    proof {
        assert(order@.take(k as int) =~= order@);
    }
    let backlog_count = backlog.len();
    GoalsView {
        active: shown,
        backlog,
        active_count: rows.len(),
        backlog_count,
        breakdown: Some(breakdown),
        error: None,
    }
}

} // verus!
