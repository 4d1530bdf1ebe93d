//! The Creative Ideas tab: the search query, which ideas a search keeps and
//! the per-status counts of the pool.

use vstd::prelude::*;
use crate::text::{
    ascii_lower_chars, ascii_lower_seq, chars_eq, contains_chars, contains_seq, to_chars,
    trim_chars, trim_seq,
};

verus! {

/// What the tab reads of an idea: its text, its rationale and the name of
/// its status.
pub struct IdeaRow {
    pub idea: String,
    pub rationale: String,
    pub status: String,
}

/// The search query: trimmed and ASCII-lower-cased (empty when absent).
pub open spec fn idea_query_spec(raw: Option<Seq<char>>) -> Seq<char> {
    match raw {
        Some(q) => ascii_lower_seq(trim_seq(q)),
        None => Seq::empty(),
    }
}

/// The search query (see `idea_query_spec`).
pub fn idea_query(raw: Option<&str>) -> (q: Vec<char>)
    ensures
        q@ == idea_query_spec(
            match raw {
                Some(r) => Some(r@),
                None => None,
            },
        ),
{
    match raw {
        Some(r) => ascii_lower_chars(trim_chars(to_chars(r).as_slice()).as_slice()),
        None => Vec::new(),
    }
}

/// The status filter of a search: the trimmed status name, none when it is
/// absent or empty.
pub fn status_filter(raw: Option<&str>) -> (r: Option<Vec<char>>)
    ensures
        match raw {
            Some(s) => if trim_seq(s@).len() > 0 {
                r matches Some(f) && f@ == trim_seq(s@)
            } else {
                r is None
            },
            None => r is None,
        },
{
    match raw {
        Some(s) => {
            let t = trim_chars(to_chars(s).as_slice());
            if t.len() > 0 {
                Some(t)
            } else {
                None
            }
        },
        None => None,
    }
}

/// An idea matches a (lower-cased) query when its text or rationale,
/// ASCII-lower-cased, contains it.
pub open spec fn idea_matches_spec(i: IdeaRow, query: Seq<char>) -> bool {
    contains_seq(ascii_lower_seq(i.idea@), query) || contains_seq(ascii_lower_seq(i.rationale@), query)
}

/// Whether the idea matches the lower-cased query (see `idea_matches_spec`).
pub fn idea_matches(i: &IdeaRow, query: &[char]) -> (b: bool)
    ensures
        b == idea_matches_spec(*i, query@),
{
    let text = ascii_lower_chars(to_chars(i.idea.as_str()).as_slice());
    if contains_chars(text.as_slice(), query) {
        return true;
    }
    let why = ascii_lower_chars(to_chars(i.rationale.as_str()).as_slice());
    contains_chars(why.as_slice(), query)
}

/// Whether a search keeps the idea: its status is the filter's (when there
/// is one) and it matches the query (when that is not empty).
pub open spec fn kept_spec(i: IdeaRow, status: Option<Seq<char>>, query: Seq<char>) -> bool {
    &&& match status {
        Some(s) => i.status@ == s,
        None => true,
    }
    &&& (query.len() == 0 || idea_matches_spec(i, query))
}

/// The positions of the ideas a search keeps, in pool order.
pub open spec fn kept_positions(ideas: Seq<IdeaRow>, status: Option<Seq<char>>, query: Seq<char>) -> Seq<usize>
    decreases ideas.len(),
{
    if ideas.len() == 0 {
        Seq::empty()
    } else if kept_spec(ideas.last(), status, query) {
        kept_positions(ideas.drop_last(), status, query).push((ideas.len() - 1) as usize)
    } else {
        kept_positions(ideas.drop_last(), status, query)
    }
}

/// The positions of the ideas a search keeps, in pool order.
pub fn search_ideas(ideas: &[IdeaRow], status: Option<&[char]>, query: &[char]) -> (r: Vec<usize>)
    ensures
        r@ == kept_positions(
            ideas@,
            match status {
                Some(s) => Some(s@),
                None => None,
            },
            query@,
        ),
{
    let ghost st = match status {
        Some(s) => Some(s@),
        None => None::<Seq<char>>,
    };
    let mut r: Vec<usize> = Vec::new();
    let mut i: usize = 0;
    while i < ideas.len()
        invariant
            i <= ideas@.len(),
            st == match status {
                Some(s) => Some(s@),
                None => None::<Seq<char>>,
            },
            r@ == kept_positions(ideas@.take(i as int), st, query@),
        decreases ideas@.len() - i,
    {
        assert(ideas@.take(i + 1).drop_last() =~= ideas@.take(i as int));
        assert(ideas@.take(i + 1).last() == ideas@[i as int]);
        let idea = &ideas[i];
        let status_ok = match status {
            Some(s) => {
                let own = to_chars(idea.status.as_str());
                chars_eq(own.as_slice(), s)
            },
            None => true,
        };
        if status_ok && (query.len() == 0 || idea_matches(idea, query)) {
            r.push(i);
        }
        i = i + 1;
    }
    assert(ideas@.take(ideas@.len() as int) =~= ideas@);
    r
}

/// How many ideas have the status named `name`.
pub open spec fn status_count(ideas: Seq<IdeaRow>, name: Seq<char>) -> nat
    decreases ideas.len(),
{
    if ideas.len() == 0 {
        0
    } else {
        status_count(ideas.drop_last(), name) + if ideas.last().status@ == name {
            1nat
        } else {
            0nat
        }
    }
}

proof fn lemma_status_count_bound(ideas: Seq<IdeaRow>, name: Seq<char>)
    ensures
        status_count(ideas, name) <= ideas.len(),
    decreases ideas.len(),
{
    if ideas.len() > 0 {
        lemma_status_count_bound(ideas.drop_last(), name);
    }
}

/// The count of each status in `all` (every status, zero-filled, in that
/// order).
pub fn status_counts(ideas: &[IdeaRow], all: &[&str]) -> (r: Vec<usize>)
    ensures
        r@.len() == all@.len(),
        forall|k: int| 0 <= k < all@.len() ==> #[trigger] r@[k] == status_count(ideas@, all@[k]@),
{
    let mut r: Vec<usize> = Vec::new();
    let mut k: usize = 0;
    while k < all.len()
        invariant
            k <= all@.len(),
            r@.len() == k,
            forall|m: int| 0 <= m < k ==> #[trigger] r@[m] == status_count(ideas@, all@[m]@),
        decreases all@.len() - k,
    {
        let name = to_chars(all[k]);
        let mut n: usize = 0;
        let mut i: usize = 0;
        while i < ideas.len()
            invariant
                i <= ideas@.len(),
                name@ == all@[k as int]@,
                n == status_count(ideas@.take(i as int), name@),
            decreases ideas@.len() - i,
        {
            assert(ideas@.take(i + 1).drop_last() =~= ideas@.take(i as int));
            assert(ideas@.take(i + 1).last() == ideas@[i as int]);
            proof {
                lemma_status_count_bound(ideas@.take(i as int), name@);
            }
            let own = to_chars(ideas[i].status.as_str());
            if chars_eq(own.as_slice(), name.as_slice()) {
                n = n + 1;
            }
            i = i + 1;
        }
        assert(ideas@.take(ideas@.len() as int) =~= ideas@);
        r.push(n);
        k = k + 1;
    }
    r
}


/// The status filter of a search among the status names `all`: none when
/// the status is absent or blank, the trimmed name when it is one of `all`,
/// and a refusal (fail-closed, never "all statuses") for any other name.
pub fn checked_status_filter(raw: Option<&str>, all: &[&str]) -> (r: Result<Option<Vec<char>>, ()>)
    ensures
        match raw {
            Some(s) => if trim_seq(s@).len() == 0 {
                r == Ok::<Option<Vec<char>>, ()>(None)
            } else if exists|k: int| 0 <= k < all@.len() && (#[trigger] all@[k])@ == trim_seq(s@) {
                r matches Ok(Some(f)) && f@ == trim_seq(s@)
            } else {
                r is Err
            },
            None => r == Ok::<Option<Vec<char>>, ()>(None),
        },
{
    let t = match status_filter(raw) {
        None => return Ok(None),
        Some(t) => t,
    };
    let mut k: usize = 0;
    while k < all.len()
        invariant
            k <= all@.len(),
            raw matches Some(s) && t@ == trim_seq(s@),
            t@.len() > 0,
            forall|m: int| 0 <= m < k ==> (#[trigger] all@[m])@ != t@,
        decreases all@.len() - k,
    {
        if chars_eq(to_chars(all[k]).as_slice(), t.as_slice()) {
            assert(all@[k as int]@ == t@);
            return Ok(Some(t));
        }
        k = k + 1;
    }
    Err(())
}


proof fn lemma_kept_listed(ideas: Seq<IdeaRow>, status: Option<Seq<char>>, query: Seq<char>, k: int)
    requires
        0 <= k < ideas.len(),
        kept_spec(ideas[k], status, query),
    ensures
        kept_positions(ideas, status, query).contains(k as usize),
    decreases ideas.len(),
{
    let init = ideas.drop_last();
    if k == ideas.len() - 1 {
        let r = kept_positions(ideas, status, query);
        assert(r.last() == k as usize);
        assert(r[r.len() - 1] == k as usize);
    } else {
        assert(init[k] == ideas[k]);
        lemma_kept_listed(init, status, query, k);
        let p = kept_positions(init, status, query);
        let j = choose|j: int| 0 <= j < p.len() && p[j] == k as usize;
        if kept_spec(ideas.last(), status, query) {
            assert(p.push((ideas.len() - 1) as usize)[j] == k as usize);
        }
    }
}

/// Law: matching ignores ASCII case and looks at the idea text and the
/// rationale alike. An idea whose ASCII-lower-cased text, or whose
/// ASCII-lower-cased rationale, contains the (lower-cased) query matches it,
/// whatever the other field holds, and a search without a status filter
/// keeps it.
pub proof fn lemma_case_insensitive_match_is_kept(ideas: Seq<IdeaRow>, k: int, query: Seq<char>)
    requires
        0 <= k < ideas.len(),
        contains_seq(ascii_lower_seq(ideas[k].idea@), query) || contains_seq(
            ascii_lower_seq(ideas[k].rationale@),
            query,
        ),
    ensures
        idea_matches_spec(ideas[k], query),
        kept_positions(ideas, None, query).contains(k as usize),
{
    lemma_kept_listed(ideas, None, query, k);
}

} // verus!
