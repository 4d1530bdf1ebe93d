//! The dashboard's one "Cycle #N": the larger of the daemon health counter
//! and the highest persisted cycle-report number, and which persisted
//! reports are read, newest first.

use vstd::prelude::*;
use crate::num::{parse_u64, parse_u64_spec};
use crate::text::{chars_eq, has_prefix, starts_with, sub_chars, to_chars};

verus! {

/// How many of the newest cycle reports are read for the cycle views.
pub const MAX_CYCLE_REPORTS: usize = 50;

/// The number in a report file name `cycle_<n>.json`, when the name has that
/// shape and `n` parses as a `u64`.
pub open spec fn cycle_ref_spec(name: Seq<char>) -> Option<u64> {
    if has_prefix(name, "cycle_"@) && name.len() >= 11 && name.skip(name.len() - 5) == ".json"@ {
        parse_u64_spec(name.subrange(6, name.len() - 5))
    } else {
        None
    }
}

/// The number in a report file name `cycle_<n>.json`.
pub fn cycle_ref_number(name: &str) -> (r: Option<u64>)
    ensures
        r == cycle_ref_spec(name@),
{
    let cs = to_chars(name);
    proof {
        reveal_strlit("cycle_");
        reveal_strlit(".json");
    }
    if !starts_with(cs.as_slice(), to_chars("cycle_").as_slice()) || cs.len() < 11 {
        return None;
    }
    let tail = sub_chars(cs.as_slice(), cs.len() - 5, cs.len());
    assert(tail@ =~= name@.skip(name@.len() - 5));
    if !chars_eq(tail.as_slice(), to_chars(".json").as_slice()) {
        return None;
    }
    let digits = sub_chars(cs.as_slice(), 6, cs.len() - 5);
    parse_u64(digits.as_slice())
}

/// The highest report number among `names`, 0 when none is a report file.
pub open spec fn latest_cycle_spec(names: Seq<Seq<char>>) -> u64
    decreases names.len(),
{
    if names.len() == 0 {
        0
    } else {
        let rest = latest_cycle_spec(names.drop_last());
        match cycle_ref_spec(names.last()) {
            Some(n) => if n > rest {
                n
            } else {
                rest
            },
            None => rest,
        }
    }
}

/// The highest persisted cycle number, from the file names of both report
/// directories (0 when there are no reports).
pub fn latest_persisted_cycle_number(names: &[String]) -> (n: u64)
    ensures
        n == latest_cycle_spec(names@.map_values(|s: String| s@)),
{
    let ghost views = names@.map_values(|s: String| s@);
    let mut best: u64 = 0;
    let mut i: usize = 0;
    while i < names.len()
        invariant
            i <= names.len(),
            views == names@.map_values(|s: String| s@),
            best == latest_cycle_spec(views.take(i as int)),
        decreases names.len() - i,
    {
        let ghost t = views.take(i + 1);
        assert(t.drop_last() =~= views.take(i as int));
        assert(t.last() == names@[i as int]@);
        if let Some(n) = cycle_ref_number(names[i].as_str()) {
            if n > best {
                best = n;
            }
        }
        i = i + 1;
    }
    assert(views.take(names.len() as int) =~= views);
    best
}

/// The health file's `cycle_number`, 0 when missing.
pub fn health_cycle_number(health_cycle: Option<u64>) -> (n: u64)
    ensures
        n == match health_cycle {
            Some(c) => c,
            None => 0,
        },
{
    match health_cycle {
        Some(c) => c,
        None => 0,
    }
}

/// The one cycle number every panel shows: the larger of the health counter
/// and the highest persisted report number.
pub fn authoritative_cycle_number(health_cycle: Option<u64>, report_names: &[String]) -> (n: u64)
    ensures
        n >= health_cycle_number_spec(health_cycle),
        n >= latest_cycle_spec(report_names@.map_values(|s: String| s@)),
        n == health_cycle_number_spec(health_cycle) || n == latest_cycle_spec(
            report_names@.map_values(|s: String| s@),
        ),
{
    let h = health_cycle_number(health_cycle);
    let p = latest_persisted_cycle_number(report_names);
    if h >= p {
        h
    } else {
        p
    }
}

/// The health file's `cycle_number`, 0 when missing.
pub open spec fn health_cycle_number_spec(health_cycle: Option<u64>) -> u64 {
    match health_cycle {
        Some(c) => c,
        None => 0,
    }
}

/// `k` inserted into the list `s` of (position, number) pairs, which runs
/// from the highest number down, after every pair with a number at least as
/// high, so that equal numbers keep their order.
pub open spec fn insert_by_number(s: Seq<(usize, u32)>, k: (usize, u32)) -> Seq<(usize, u32)>
    decreases s.len(),
{
    if s.len() == 0 {
        seq![k]
    } else if s[0].1 >= k.1 {
        seq![s[0]] + insert_by_number(s.skip(1), k)
    } else {
        seq![k] + s
    }
}

/// Inserts `k` where `insert_by_number` puts it.
pub fn insert_pair(v: &mut Vec<(usize, u32)>, k: (usize, u32))
    ensures
        final(v)@ == insert_by_number(old(v)@, k),
{
    let mut i: usize = 0;
    assert(v@.skip(0) =~= v@);
    loop
        invariant
            i <= v.len(),
            v@ == old(v)@,
            insert_by_number(old(v)@, k) == v@.take(i as int) + insert_by_number(v@.skip(i as int), k),
        ensures
            i <= v.len(),
            v@ == old(v)@,
            insert_by_number(old(v)@, k) == v@.take(i as int) + seq![k] + v@.skip(i as int),
        decreases v.len() - i,
    {
        if i == v.len() {
            assert(v@.skip(i as int) =~= Seq::<(usize, u32)>::empty());
            break;
        }
        let ghost rest = v@.skip(i as int);
        assert(rest[0] == v@[i as int]);
        if v[i].1 >= k.1 {
            assert(rest.skip(1) =~= v@.skip(i + 1));
            assert(v@.take(i + 1) =~= v@.take(i as int) + seq![rest[0]]);
            i = i + 1;
        } else {
            break;
        }
    }
    v.insert(i, k);
    assert(v@ =~= old(v)@.take(i as int) + seq![k] + old(v)@.skip(i as int));
}

/// Inserting adds exactly one pair.
pub proof fn lemma_insert_by_number_len(s: Seq<(usize, u32)>, k: (usize, u32))
    ensures
        insert_by_number(s, k).len() == s.len() + 1,
    decreases s.len(),
{
    if s.len() > 0 && s[0].1 >= k.1 {
        lemma_insert_by_number_len(s.skip(1), k);
    }
}


/// The number of a report file name as the recent-reports reader takes it:
/// `cycle_<n>.json` with `n` fitting a `u32`.
pub open spec fn cycle_ref_u32(name: Seq<char>) -> Option<u32> {
    match cycle_ref_spec(name) {
        Some(n) => if n <= u32::MAX {
            Some(n as u32)
        } else {
            None
        },
        None => None,
    }
}

/// The readable report references `(position, number)` of `names`, stably
/// sorted newest first.
pub open spec fn newest_refs(names: Seq<Seq<char>>) -> Seq<(usize, u32)>
    decreases names.len(),
{
    if names.len() == 0 {
        Seq::empty()
    } else {
        let rest = newest_refs(names.drop_last());
        match cycle_ref_u32(names.last()) {
            Some(n) => insert_by_number(rest, ((names.len() - 1) as usize, n)),
            None => rest,
        }
    }
}

/// The report files of `names` (both directories, first directory first),
/// as `(position, number)`, newest cycle first; equal numbers keep listing
/// order, so the first directory wins a duplicate.
pub fn newest_report_refs(names: &[String]) -> (v: Vec<(usize, u32)>)
    ensures
        v@ == newest_refs(names@.map_values(|s: String| s@)),
{
    let ghost views = names@.map_values(|s: String| s@);
    let mut v: Vec<(usize, u32)> = Vec::new();
    let mut i: usize = 0;
    while i < names.len()
        invariant
            i <= names.len(),
            views == names@.map_values(|s: String| s@),
            v@ == newest_refs(views.take(i as int)),
        decreases names.len() - i,
    {
        let ghost t = views.take(i + 1);
        assert(t.drop_last() =~= views.take(i as int));
        assert(t.last() == names@[i as int]@);
        match cycle_ref_number(names[i].as_str()) {
            Some(n) => {
                if n <= 0xffff_ffff {
                    insert_pair(&mut v, (i, n as u32));
                }
            },
            None => {},
        }
        i = i + 1;
    }
    assert(views.take(names.len() as int) =~= views);
    v
}

/// Which report to read next, newest first: reads stop once `limit`
/// reports were taken, and once a cycle number was taken its other copies
/// are skipped; an unreadable copy is skipped and the next copy tried.
pub struct ReportPicker {
    refs: Vec<(usize, u32)>,
    pos: usize,
    taken: usize,
    last_taken: Option<u32>,
    limit: usize,
}

impl ReportPicker {
    #[verifier::type_invariant]
    spec fn inv(self) -> bool {
        self.pos <= self.refs@.len()
    }

    /// The references still to consider.
    pub closed spec fn pending(&self) -> Seq<(usize, u32)> {
        self.refs@.skip(self.pos as int)
    }

    /// How many reports were taken.
    pub closed spec fn taken_count(&self) -> nat {
        self.taken as nat
    }

    /// The number of the report taken last.
    pub closed spec fn last(&self) -> Option<u32> {
        self.last_taken
    }

    /// The most reports to take.
    pub closed spec fn cap(&self) -> nat {
        self.limit as nat
    }

    /// Starts over `refs` (newest first), taking at most `limit` reports.
    pub fn new(refs: Vec<(usize, u32)>, limit: usize) -> (p: ReportPicker)
        ensures
            p.pending() == refs@,
            p.taken_count() == 0,
            p.last() is None,
            p.cap() == limit,
    {
        assert(refs@.skip(0) =~= refs@);
        ReportPicker { refs, pos: 0, taken: 0, last_taken: None, limit }
    }

    /// The next reference to read: `None` once `limit` reports were taken or
    /// nothing is left; copies of the number taken last are passed over.
    pub fn next_to_read(&mut self) -> (r: Option<(usize, u32)>)
        ensures
            final(self).taken_count() == old(self).taken_count(),
            final(self).last() == old(self).last(),
            final(self).cap() == old(self).cap(),
            old(self).taken_count() >= old(self).cap() ==> r is None,
            r matches Some(x) ==> {
                &&& old(self).taken_count() < old(self).cap()
                &&& Some(x.1) != old(self).last()
                &&& exists|k: int|
                    0 <= k < old(self).pending().len() && old(self).pending()[k] == x
                        && final(self).pending() == old(self).pending().skip(k + 1)
                        && forall|m: int| 0 <= m < k ==> Some(#[trigger] old(self).pending()[m].1) == old(self).last()
            },
            r is None && old(self).taken_count() < old(self).cap() ==> forall|m: int|
                0 <= m < old(self).pending().len() ==> Some(#[trigger] old(self).pending()[m].1) == old(self).last(),
    {
        proof {
            use_type_invariant(&*self);
        }
        if self.taken >= self.limit {
            return None;
        }
        let start = self.pos;
        while self.pos < self.refs.len()
            invariant
                start <= self.pos <= self.refs.len(),
                self.refs@ == old(self).refs@,
                self.taken == old(self).taken,
                self.last_taken == old(self).last_taken,
                self.limit == old(self).limit,
                start == old(self).pos,
                self.taken < self.limit,
                forall|m: int| start <= m < self.pos ==> Some(#[trigger] self.refs@[m].1) == self.last_taken,
            decreases self.refs.len() - self.pos,
        {
            let x = self.refs[self.pos];
            let ghost k = self.pos - start;
            self.pos = self.pos + 1;
            let same = match self.last_taken {
                Some(l) => l == x.1,
                None => false,
            };
            if !same {
                proof {
                    assert(old(self).pending() == old(self).refs@.skip(start as int));
                    let old_pending = old(self).refs@.skip(start as int);
                    assert(old_pending[k] == x);
                    assert(self.refs@.skip(self.pos as int) =~= old_pending.skip(k + 1));
                    assert forall|m: int| 0 <= m < k implies Some(#[trigger] old_pending[m].1) == old(self).last_taken by {
                        assert(old_pending[m] == self.refs@[start + m]);
                    }
                    assert(old(self).pending()[k] == x && self.pending() == old(self).pending().skip(k + 1));
                }
                return Some(x);
            }
        }
        proof {
            let old_pending = old(self).refs@.skip(start as int);
            assert forall|m: int| 0 <= m < old_pending.len() implies Some(#[trigger] old_pending[m].1) == old(self).last_taken by {
                assert(old_pending[m] == self.refs@[start + m]);
            }
        }
        None
    }

    /// Records that the report numbered `number` was read: it counts as
    /// taken, and its other copies will be skipped.
    pub fn taken(&mut self, number: u32)
        requires
            old(self).taken_count() < old(self).cap(),
        ensures
            final(self).taken_count() == old(self).taken_count() + 1,
            final(self).last() == Some(number),
            final(self).pending() == old(self).pending(),
            final(self).cap() == old(self).cap(),
    {
        proof {
            use_type_invariant(&*self);
        }
        self.taken = self.taken + 1;
        self.last_taken = Some(number);
    }
}


/// `s` runs from the highest number down, equal numbers in increasing
/// position.
pub open spec fn newest_first_order(s: Seq<(usize, u32)>) -> bool {
    forall|i: int, j: int|
        0 <= i < j < s.len() ==> (#[trigger] s[i]).1 > (#[trigger] s[j]).1 || (s[i].1 == s[j].1 && s[i].0
            < s[j].0)
}

proof fn lemma_insert_keeps_order(s: Seq<(usize, u32)>, k: (usize, u32))
    requires
        newest_first_order(s),
        forall|i: int| 0 <= i < s.len() ==> (#[trigger] s[i]).0 < k.0,
    ensures
        newest_first_order(insert_by_number(s, k)),
        forall|x: (usize, u32)| #[trigger] insert_by_number(s, k).contains(x) <==> (s.contains(x) || x == k),
    decreases s.len(),
{
    let r = insert_by_number(s, k);
    if s.len() == 0 {
        assert forall|x: (usize, u32)| #[trigger] r.contains(x) <==> (s.contains(x) || x == k) by {
            if r.contains(x) {
                assert(r[0] == k);
            }
            if x == k {
                assert(r[0] == x);
            }
        }
    } else if s[0].1 >= k.1 {
        let rest = s.skip(1);
        assert forall|i: int, j: int| 0 <= i < j < rest.len() implies (#[trigger] rest[i]).1 > (
        #[trigger] rest[j]).1 || (rest[i].1 == rest[j].1 && rest[i].0 < rest[j].0) by {
            assert(rest[i] == s[i + 1] && rest[j] == s[j + 1]);
        }
        assert forall|i: int| 0 <= i < rest.len() implies (#[trigger] rest[i]).0 < k.0 by {
            assert(rest[i] == s[i + 1]);
        }
        lemma_insert_keeps_order(rest, k);
        let t = insert_by_number(rest, k);
        assert(r == seq![s[0]] + t);
        assert forall|i: int, j: int| 0 <= i < j < r.len() implies (#[trigger] r[i]).1 > (#[trigger] r[j]).1 || (
        r[i].1 == r[j].1 && r[i].0 < r[j].0) by {
            if i == 0 {
                assert(r[j] == t[j - 1]);
                assert(t.contains(t[j - 1]));
                if t[j - 1] != k {
                    assert(rest.contains(t[j - 1]));
                    let m = choose|m: int| 0 <= m < rest.len() && rest[m] == t[j - 1];
                    assert(rest[m] == s[m + 1]);
                }
            } else {
                assert(r[i] == t[i - 1] && r[j] == t[j - 1]);
            }
        }
        assert forall|x: (usize, u32)| #[trigger] r.contains(x) <==> (s.contains(x) || x == k) by {
            if r.contains(x) {
                let m = choose|m: int| 0 <= m < r.len() && r[m] == x;
                if m > 0 {
                    assert(t[m - 1] == x);
                    assert(t.contains(x));
                    if x != k {
                        let q = choose|q: int| 0 <= q < rest.len() && rest[q] == x;
                        assert(s[q + 1] == x);
                    }
                }
            }
            if s.contains(x) {
                let m = choose|m: int| 0 <= m < s.len() && s[m] == x;
                if m == 0 {
                    assert(r[0] == x);
                } else {
                    assert(rest[m - 1] == x);
                    assert(rest.contains(x));
                    assert(t.contains(x));
                    let q = choose|q: int| 0 <= q < t.len() && t[q] == x;
                    assert(r[q + 1] == x);
                }
            }
            if x == k {
                assert(t.contains(x));
                let q = choose|q: int| 0 <= q < t.len() && t[q] == x;
                assert(r[q + 1] == x);
            }
        }
    } else {
        assert(r == seq![k] + s);
        assert forall|i: int, j: int| 0 <= i < j < r.len() implies (#[trigger] r[i]).1 > (#[trigger] r[j]).1 || (
        r[i].1 == r[j].1 && r[i].0 < r[j].0) by {
            if i == 0 {
                assert(r[j] == s[j - 1]);
                if j - 1 > 0 {
                    assert(s[0].1 >= s[j - 1].1);
                }
            } else {
                assert(r[i] == s[i - 1] && r[j] == s[j - 1]);
            }
        }
        assert forall|x: (usize, u32)| #[trigger] r.contains(x) <==> (s.contains(x) || x == k) by {
            if r.contains(x) {
                let m = choose|m: int| 0 <= m < r.len() && r[m] == x;
                if m > 0 {
                    assert(s[m - 1] == x);
                }
            }
            if s.contains(x) {
                let m = choose|m: int| 0 <= m < s.len() && s[m] == x;
                assert(r[m + 1] == x);
            }
            if x == k {
                assert(r[0] == x);
            }
        }
    }
}

/// Law: the report references come newest cycle first, and for a cycle
/// number listed more than once the earlier listing (the first directory)
/// comes first; they are exactly the report files of `names`, each with its
/// number.
pub proof fn lemma_newest_refs_order(names: Seq<Seq<char>>)
    requires
        names.len() <= usize::MAX,
    ensures
        newest_first_order(newest_refs(names)),
        forall|x: (usize, u32)|
            #[trigger] newest_refs(names).contains(x) <==> (x.0 < names.len() && cycle_ref_u32(names[x.0 as int])
                == Some(x.1)),
    decreases names.len(),
{
    if names.len() > 0 {
        let init = names.drop_last();
        lemma_newest_refs_order(init);
        let rest = newest_refs(init);
        assert forall|i: int| 0 <= i < rest.len() implies (#[trigger] rest[i]).0 < (names.len() - 1) as usize by {
            assert(rest.contains(rest[i]));
        }
        match cycle_ref_u32(names.last()) {
            Some(n) => {
                lemma_insert_keeps_order(rest, ((names.len() - 1) as usize, n));
            },
            None => {},
        }
        assert forall|x: (usize, u32)|
            #[trigger] newest_refs(names).contains(x) <==> (x.0 < names.len() && cycle_ref_u32(names[x.0 as int])
                == Some(x.1)) by {
            assert(rest.contains(x) <==> (x.0 < init.len() && cycle_ref_u32(init[x.0 as int]) == Some(x.1)));
            if x.0 < names.len() - 1 {
                assert(names[x.0 as int] == init[x.0 as int]);
            }
            assert(names.last() == names[names.len() - 1]);
        }
    }
}

} // verus!
