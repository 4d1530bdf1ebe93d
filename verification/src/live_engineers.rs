//! The live-engineer set of the "Active Engineers" panel: subagent sessions
//! that have not ended and engineer worktrees whose claim names a live
//! process, one entry per goal, in goal order.

use vstd::prelude::*;
use crate::chat_store::{chars_le, lemma_text_le_antisym, lemma_text_le_total, lemma_text_le_trans, text_le};
use crate::text::{chars_eq, to_chars};

verus! {

/// Which source proved an engineer live.
#[derive(Clone, Copy, Debug, PartialEq, Eq, Structural)]
pub enum EngineerSource {
    SubagentSession,
    WorktreeClaim,
}

impl EngineerSource {
    /// The source's name in the panel: `subagent_session` or
    /// `worktree_claim`.
    pub fn as_str(&self) -> (s: &'static str)
        ensures
            s@ == match *self {
                EngineerSource::SubagentSession => "subagent_session"@,
                EngineerSource::WorktreeClaim => "worktree_claim"@,
            },
    {
        match self {
            EngineerSource::SubagentSession => "subagent_session",
            EngineerSource::WorktreeClaim => "worktree_claim",
        }
    }
}

/// A recorded subagent session: its goal (empty when it has none), its
/// session name, pid and whether that pid is alive, when it was created
/// (epoch seconds), and whether it has ended.
pub struct SessionEvidence {
    pub goal_id: String,
    pub session_name: String,
    pub pid: i32,
    pub alive: bool,
    pub created_at: i64,
    pub ended: bool,
}

/// An engineer worktree whose claim names a live process.
pub struct ClaimEvidence {
    pub goal_id: String,
    pub pid: i32,
}

/// One live engineer, from whichever source proved it live.
pub struct LiveEngineer {
    pub goal_id: String,
    pub pid: i32,
    pub alive: bool,
    pub source: EngineerSource,
    pub started_at: Option<i64>,
}

/// The engineer a running session stands for: keyed by its goal, or by its
/// session name when it has no goal.
pub open spec fn session_engineer(s: SessionEvidence) -> LiveEngineer {
    LiveEngineer {
        goal_id: if s.goal_id@.len() == 0 {
            s.session_name
        } else {
            s.goal_id
        },
        pid: s.pid,
        alive: s.alive,
        source: EngineerSource::SubagentSession,
        started_at: Some(s.created_at),
    }
}

/// The engineer a live worktree claim stands for.
pub open spec fn claim_engineer(c: ClaimEvidence) -> LiveEngineer {
    LiveEngineer {
        goal_id: c.goal_id,
        pid: c.pid,
        alive: true,
        source: EngineerSource::WorktreeClaim,
        started_at: None,
    }
}

/// The engineers of the sessions that have not ended, in order.
pub open spec fn session_candidates(s: Seq<SessionEvidence>) -> Seq<LiveEngineer>
    decreases s.len(),
{
    if s.len() == 0 {
        Seq::empty()
    } else if s.last().ended {
        session_candidates(s.drop_last())
    } else {
        session_candidates(s.drop_last()).push(session_engineer(s.last()))
    }
}

/// Every piece of evidence, sessions first.
pub open spec fn candidates(sessions: Seq<SessionEvidence>, claims: Seq<ClaimEvidence>) -> Seq<LiveEngineer> {
    session_candidates(sessions) + claims.map_values(|c: ClaimEvidence| claim_engineer(c))
}

/// The first engineer in `s` for goal `g`.
pub open spec fn first_for_goal(s: Seq<LiveEngineer>, g: Seq<char>) -> Option<LiveEngineer>
    decreases s.len(),
{
    if s.len() == 0 {
        None
    } else {
        match first_for_goal(s.drop_last(), g) {
            Some(e) => Some(e),
            None => if s.last().goal_id@ == g {
                Some(s.last())
            } else {
                None
            },
        }
    }
}

/// `a`'s goal comes strictly before `b`'s.
pub open spec fn goal_lt(a: LiveEngineer, b: LiveEngineer) -> bool {
    text_le(a.goal_id@, b.goal_id@) && a.goal_id@ != b.goal_id@
}

/// Some entry of `out` is for goal `g`.
pub open spec fn has_goal(out: Seq<LiveEngineer>, g: Seq<char>) -> bool {
    exists|a: int| 0 <= a < out.len() && (#[trigger] out[a]).goal_id@ == g
}

/// Strictly ascending by goal: one entry per goal.
pub open spec fn by_goal(out: Seq<LiveEngineer>) -> bool {
    forall|a: int, b: int| 0 <= a < b < out.len() ==> goal_lt(#[trigger] out[a], #[trigger] out[b])
}

/// `out` is the live set of `cands`: one entry per goal, in goal order,
/// each the first evidence for its goal, and every goal present.
pub open spec fn live_set(out: Seq<LiveEngineer>, cands: Seq<LiveEngineer>) -> bool {
    &&& by_goal(out)
    &&& forall|a: int| 0 <= a < out.len() ==> first_for_goal(cands, (#[trigger] out[a]).goal_id@) == Some(out[a])
    &&& forall|k: int| 0 <= k < cands.len() ==> has_goal(out, (#[trigger] cands[k]).goal_id@)
}

fn copy_string(s: &String) -> (r: String)
    ensures
        r == *s,
{
    s.clone()
}

fn session_of(s: &SessionEvidence) -> (e: LiveEngineer)
    ensures
        e == session_engineer(*s),
{
    LiveEngineer {
        goal_id: if s.goal_id.as_str().is_empty() {
            copy_string(&s.session_name)
        } else {
            copy_string(&s.goal_id)
        },
        pid: s.pid,
        alive: s.alive,
        source: EngineerSource::SubagentSession,
        started_at: Some(s.created_at),
    }
}

fn candidates_of(sessions: &[SessionEvidence], claims: &[ClaimEvidence]) -> (v: Vec<LiveEngineer>)
    ensures
        v@ == candidates(sessions@, claims@),
{
    let mut v: Vec<LiveEngineer> = Vec::new();
    let mut i: usize = 0;
    while i < sessions.len()
        invariant
            i <= sessions@.len(),
            v@ == session_candidates(sessions@.take(i as int)),
        decreases sessions@.len() - i,
    {
        assert(sessions@.take(i + 1).drop_last() =~= sessions@.take(i as int));
        assert(sessions@.take(i + 1).last() == sessions@[i as int]);
        if !sessions[i].ended {
            v.push(session_of(&sessions[i]));
        }
        i = i + 1;
    }
    assert(sessions@.take(sessions@.len() as int) =~= sessions@);
    let ghost base = v@;
    let mut k: usize = 0;
    while k < claims.len()
        invariant
            k <= claims@.len(),
            base == session_candidates(sessions@),
            v@ == base + claims@.take(k as int).map_values(|c: ClaimEvidence| claim_engineer(c)),
        decreases claims@.len() - k,
    {
        let c = &claims[k];
        v.push(
            LiveEngineer {
                goal_id: copy_string(&c.goal_id),
                pid: c.pid,
                alive: true,
                source: EngineerSource::WorktreeClaim,
                started_at: None,
            },
        );
        assert(v@ =~= base + claims@.take(k + 1).map_values(|c: ClaimEvidence| claim_engineer(c)));
        k = k + 1;
    }
    assert(claims@.take(claims@.len() as int) =~= claims@);
    v
}

proof fn lemma_has_goal_after_insert(out: Seq<LiveEngineer>, j: int, e: LiveEngineer, g: Seq<char>)
    requires
        0 <= j <= out.len(),
        has_goal(out, g) || e.goal_id@ == g,
    ensures
        has_goal(out.insert(j, e), g),
{
    let n = out.insert(j, e);
    if e.goal_id@ == g {
        assert(n[j].goal_id@ == g);
    } else {
        let a = choose|a: int| 0 <= a < out.len() && (#[trigger] out[a]).goal_id@ == g;
        if a < j {
            assert(n[a] == out[a]);
        } else {
            assert(n[a + 1] == out[a]);
        }
    }
}

proof fn lemma_first_some_has(s: Seq<LiveEngineer>, g: Seq<char>)
    requires
        first_for_goal(s, g) is Some,
    ensures
        exists|k: int| 0 <= k < s.len() && (#[trigger] s[k]).goal_id@ == g,
    decreases s.len(),
{
    let init = s.drop_last();
    if first_for_goal(init, g) is Some {
        lemma_first_some_has(init, g);
        let k = choose|k: int| 0 <= k < init.len() && (#[trigger] init[k]).goal_id@ == g;
        assert(s[k] == init[k]);
    } else {
        assert(s[s.len() - 1] == s.last());
    }
}

/// Puts `e` into the goal-ordered `out` unless its goal is there already;
/// gives where it went.
fn insert_by_goal(out: &mut Vec<LiveEngineer>, e: LiveEngineer) -> (r: Option<usize>)
    requires
        by_goal(old(out)@),
    ensures
        by_goal(final(out)@),
        match r {
            None => has_goal(old(out)@, e.goal_id@) && final(out)@ == old(out)@,
            Some(j) => !has_goal(old(out)@, e.goal_id@) && j <= old(out)@.len() && final(out)@
                == old(out)@.insert(j as int, e),
        },
{
    let g = to_chars(e.goal_id.as_str());
    let mut j: usize = 0;
    while j < out.len()
        invariant
            j <= out@.len(),
            out@ == old(out)@,
            g@ == e.goal_id@,
            by_goal(out@),
            forall|a: int| 0 <= a < j ==> goal_lt(#[trigger] out@[a], e),
        ensures
            j <= out@.len(),
            j < out@.len() ==> !text_le(out@[j as int].goal_id@, e.goal_id@) && out@[j as int].goal_id@
                != e.goal_id@,
        decreases out@.len() - j,
    {
        let oc = to_chars(out[j].goal_id.as_str());
        if chars_eq(oc.as_slice(), g.as_slice()) {
            proof {
                assert(out@[j as int].goal_id@ == e.goal_id@);
            }
            return None;
        }
        if !chars_le(oc.as_slice(), g.as_slice()) {
            break;
        }
        j = j + 1;
    }
    proof {
        let o = old(out)@;
        if j < o.len() {
            lemma_text_le_total(e.goal_id@, o[j as int].goal_id@);
            assert(goal_lt(e, o[j as int]));
        }
        assert forall|a: int| j <= a < o.len() implies goal_lt(e, #[trigger] o[a]) by {
            if a > j {
                assert(goal_lt(o[j as int], o[a]));
                lemma_text_le_trans(e.goal_id@, o[j as int].goal_id@, o[a].goal_id@);
                if e.goal_id@ == o[a].goal_id@ {
                    lemma_text_le_antisym(o[j as int].goal_id@, o[a].goal_id@);
                }
            }
        }
        assert(!has_goal(o, e.goal_id@));
    }
    let ghost ev = e;
    out.insert(j, e);
    proof {
        let o = old(out)@;
        let n = out@;
        assert(n =~= o.insert(j as int, ev));
        assert forall|a: int, b: int| 0 <= a < b < n.len() implies goal_lt(#[trigger] n[a], #[trigger] n[b]) by {
            if b < j {
                assert(n[a] == o[a] && n[b] == o[b]);
            } else if b == j {
                assert(n[a] == o[a]);
            } else if a < j {
                assert(n[a] == o[a] && n[b] == o[b - 1]);
                assert(goal_lt(o[a], ev));
                assert(goal_lt(ev, o[b - 1]));
                lemma_text_le_trans(o[a].goal_id@, ev.goal_id@, o[b - 1].goal_id@);
                assert(goal_lt(o[a], o[b - 1]));
            } else if a == j {
                assert(n[b] == o[b - 1]);
            } else {
                assert(n[a] == o[a - 1] && n[b] == o[b - 1]);
            }
        }
    }
    Some(j)
}

/// The live engineers: every session that has not ended, then every live
/// claim, one entry per goal (a session's entry winning over a claim's for
/// the same goal, an earlier one over a later), sorted by goal.
pub fn live_engineers(sessions: &[SessionEvidence], claims: &[ClaimEvidence]) -> (out: Vec<LiveEngineer>)
    ensures
        live_set(out@, candidates(sessions@, claims@)),
{
    let cands = candidates_of(sessions, claims);
    let ghost all = cands@;
    let mut rest = cands;
    let mut out: Vec<LiveEngineer> = Vec::new();
    let n = rest.len();
    let mut i: usize = 0;
    assert(all.skip(0) =~= all);
    while i < n
        invariant
            n == all.len(),
            i <= n,
            rest@ == all.skip(i as int),
            live_set(out@, all.take(i as int)),
        decreases n - i,
    {
        let ghost prefix = all.take(i as int);
        let ghost next = all.take(i + 1);
        assert(next.drop_last() =~= prefix);
        assert(next.last() == all[i as int]);
        let ghost before = out@;
        let e = rest.remove(0);
        assert(rest@ =~= all.skip(i + 1));
        assert(e == all[i as int]);
        let r = insert_by_goal(&mut out, e);
        proof {
            match r {
                None => {
                    assert forall|a: int| 0 <= a < out@.len() implies first_for_goal(
                        next,
                        (#[trigger] out@[a]).goal_id@,
                    ) == Some(out@[a]) by {
                        assert(first_for_goal(prefix, out@[a].goal_id@) == Some(out@[a]));
                    }
                    assert forall|k: int| 0 <= k < next.len() implies has_goal(out@, (#[trigger] next[k]).goal_id@) by {
                        if k < i {
                            assert(next[k] == prefix[k]);
                        }
                    }
                },
                Some(j) => {
                    let nw = out@;
                    assert(first_for_goal(prefix, all[i as int].goal_id@) is None) by {
                        if first_for_goal(prefix, all[i as int].goal_id@) is Some {
                            lemma_first_some_has(prefix, all[i as int].goal_id@);
                            let k = choose|k: int| 0 <= k < prefix.len() && (#[trigger] prefix[k]).goal_id@ == all[i as int].goal_id@;
                            assert(has_goal(before, prefix[k].goal_id@));
                        }
                    }
                    assert forall|a: int| 0 <= a < nw.len() implies first_for_goal(
                        next,
                        (#[trigger] nw[a]).goal_id@,
                    ) == Some(nw[a]) by {
                        if a < j {
                            assert(nw[a] == before[a]);
                            assert(first_for_goal(prefix, before[a].goal_id@) == Some(before[a]));
                        } else if a == j {
                            assert(nw[a] == all[i as int]);
                        } else {
                            assert(nw[a] == before[a - 1]);
                            assert(first_for_goal(prefix, before[a - 1].goal_id@) == Some(before[a - 1]));
                        }
                    }
                    assert forall|k: int| 0 <= k < next.len() implies has_goal(nw, (#[trigger] next[k]).goal_id@) by {
                        if k < i {
                            assert(next[k] == prefix[k]);
                            assert(has_goal(before, prefix[k].goal_id@));
                        }
                        lemma_has_goal_after_insert(before, j as int, all[i as int], next[k].goal_id@);
                    }
                },
            }
        }
        i = i + 1;
    }
    assert(all.take(n as int) =~= all);
    out
}


proof fn lemma_first_for_goal_source(s: Seq<LiveEngineer>, g: Seq<char>, k: int)
    requires
        0 <= k < s.len(),
        s[k].goal_id@ == g,
        s[k].source == EngineerSource::SubagentSession,
        forall|m: int| 0 <= m < k ==> (#[trigger] s[m]).source == EngineerSource::SubagentSession,
    ensures
        first_for_goal(s, g) matches Some(e) && e.source == EngineerSource::SubagentSession,
    decreases s.len(),
{
    if k < s.len() - 1 {
        let init = s.drop_last();
        assert(init[k] == s[k]);
        assert forall|m: int| 0 <= m < k implies (#[trigger] init[m]).source == EngineerSource::SubagentSession by {
            assert(init[m] == s[m]);
        }
        lemma_first_for_goal_source(init, g, k);
    } else {
        let init = s.drop_last();
        if first_for_goal(init, g) is Some {
            lemma_first_some_source(init, g);
        }
    }
}

proof fn lemma_first_some_source(s: Seq<LiveEngineer>, g: Seq<char>)
    requires
        first_for_goal(s, g) is Some,
        forall|m: int| 0 <= m < s.len() ==> (#[trigger] s[m]).source == EngineerSource::SubagentSession,
    ensures
        first_for_goal(s, g) matches Some(e) && e.source == EngineerSource::SubagentSession,
    decreases s.len(),
{
    let init = s.drop_last();
    if first_for_goal(init, g) is Some {
        assert forall|m: int| 0 <= m < init.len() implies (#[trigger] init[m]).source == EngineerSource::SubagentSession by {
            assert(init[m] == s[m]);
        }
        lemma_first_some_source(init, g);
    } else {
        assert(s.last() == s[s.len() - 1]);
    }
}

proof fn lemma_session_candidates_are_sessions(s: Seq<SessionEvidence>)
    ensures
        forall|m: int| 0 <= m < session_candidates(s).len() ==> (#[trigger] session_candidates(s)[m]).source
            == EngineerSource::SubagentSession,
        forall|j: int| 0 <= j < s.len() && !s[j].ended ==> exists|m: int| 0 <= m < session_candidates(s).len()
            && #[trigger] session_candidates(s)[m] == session_engineer(#[trigger] s[j]),
    decreases s.len(),
{
    if s.len() > 0 {
        let init = s.drop_last();
        lemma_session_candidates_are_sessions(init);
        let r = session_candidates(init);
        assert forall|j: int| 0 <= j < s.len() && !s[j].ended implies exists|m: int| 0 <= m < session_candidates(s).len()
            && #[trigger] session_candidates(s)[m] == session_engineer(#[trigger] s[j]) by {
            if j < s.len() - 1 {
                assert(s[j] == init[j]);
                let m = choose|m: int| 0 <= m < r.len() && #[trigger] r[m] == session_engineer(init[j]);
                assert(session_candidates(s)[m] == r[m]);
            } else {
                assert(s.last() == s[j]);
                assert(session_candidates(s)[r.len() as int] == session_engineer(s[j]));
            }
        }
    }
}

/// Law: a session that has not ended wins over worktree claims: the live
/// entry for its goal comes from a session.
pub proof fn lemma_session_evidence_wins(
    sessions: Seq<SessionEvidence>,
    claims: Seq<ClaimEvidence>,
    out: Seq<LiveEngineer>,
    j: int,
)
    requires
        live_set(out, candidates(sessions, claims)),
        0 <= j < sessions.len(),
        !sessions[j].ended,
    ensures
        exists|a: int| 0 <= a < out.len() && (#[trigger] out[a]).goal_id@ == session_engineer(sessions[j]).goal_id@
            && out[a].source == EngineerSource::SubagentSession,
{
    let c = candidates(sessions, claims);
    let sc = session_candidates(sessions);
    lemma_session_candidates_are_sessions(sessions);
    let e = session_engineer(sessions[j]);
    let m = choose|m: int| 0 <= m < sc.len() && #[trigger] sc[m] == session_engineer(#[trigger] sessions[j]);
    assert(c[m] == sc[m]);
    assert forall|q: int| 0 <= q < m implies (#[trigger] c[q]).source == EngineerSource::SubagentSession by {
        assert(c[q] == sc[q]);
    }
    lemma_first_for_goal_source(c, e.goal_id@, m);
    assert(has_goal(out, c[m].goal_id@));
    let a = choose|a: int| 0 <= a < out.len() && (#[trigger] out[a]).goal_id@ == c[m].goal_id@;
    assert(first_for_goal(c, out[a].goal_id@) == Some(out[a]));
}

} // verus!
