//! Which log lines are read: the newest lines of the cost ledger's tail and
//! the first lines of the service journal for the Traces tab, and a log's
//! tail for the agent-log backfill.

use vstd::prelude::*;

verus! {

/// Lines read from the end of the cost ledger.
pub const LEDGER_TAIL_LINES: usize = 100;

/// Ledger lines kept, newest first.
pub const LEDGER_SPANS: usize = 50;

/// Journal lines read.
pub const JOURNAL_SPANS: usize = 50;

/// The last `n` lines of `lines`, newest first.
pub open spec fn newest_first(lines: Seq<String>, n: nat) -> Seq<String> {
    let k = if lines.len() < n {
        lines.len()
    } else {
        n
    };
    Seq::new(k, |i: int| lines[lines.len() - 1 - i])
}

/// The last `n` lines of `lines`, newest first.
pub fn newest_lines_first(lines: &[String], n: usize) -> (r: Vec<&String>)
    ensures
        r@.len() == newest_first(lines@, n as nat).len(),
        forall|i: int| 0 <= i < r@.len() ==> *#[trigger] r@[i] == newest_first(lines@, n as nat)[i],
{
    let k: usize = if lines.len() < n {
        lines.len()
    } else {
        n
    };
    let mut r: Vec<&String> = Vec::new();
    let mut i: usize = 0;
    while i < k
        invariant
            i <= k,
            k <= lines@.len(),
            k == newest_first(lines@, n as nat).len(),
            r@.len() == i,
            forall|j: int| 0 <= j < i ==> *#[trigger] r@[j] == lines@[lines@.len() - 1 - j],
        decreases k - i,
    {
        r.push(&lines[lines.len() - 1 - i]);
        i = i + 1;
    }
    r
}

/// The first `n` lines of `lines`, in order.
pub fn first_lines(lines: &[String], n: usize) -> (r: Vec<&String>)
    ensures
        r@.len() == if lines@.len() < n {
            lines@.len()
        } else {
            n as nat
        },
        forall|i: int| 0 <= i < r@.len() ==> *#[trigger] r@[i] == lines@[i],
{
    let k: usize = if lines.len() < n {
        lines.len()
    } else {
        n
    };
    let mut r: Vec<&String> = Vec::new();
    let mut i: usize = 0;
    while i < k
        invariant
            i <= k,
            k <= lines@.len(),
            r@.len() == i,
            forall|j: int| 0 <= j < i ==> *#[trigger] r@[j] == lines@[j],
        decreases k - i,
    {
        r.push(&lines[i]);
        i = i + 1;
    }
    r
}


/// The last `n` lines of `lines`, in order (a log's tail).
pub fn last_lines(lines: &[String], n: usize) -> (r: Vec<&String>)
    ensures
        r@.len() == if lines@.len() < n {
            lines@.len()
        } else {
            n as nat
        },
        forall|i: int| 0 <= i < r@.len() ==> *#[trigger] r@[i] == lines@[lines@.len() - r@.len() + i],
{
    let k: usize = if lines.len() < n {
        lines.len()
    } else {
        n
    };
    let start = lines.len() - k;
    let mut r: Vec<&String> = Vec::new();
    let mut i: usize = 0;
    while i < k
        invariant
            i <= k,
            k <= lines.len(),
            start == lines.len() - k,
            r@.len() == i,
            forall|j: int| 0 <= j < i ==> *#[trigger] r@[j] == lines@[start + j],
        decreases k - i,
    {
        r.push(&lines[start + i]);
        i = i + 1;
    }
    r
}

} // verus!
