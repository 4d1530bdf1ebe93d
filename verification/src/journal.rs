//! The Journal tab's request handling: day parsing, the optional search
//! range, the search text and the snippet shown with each result.

use chrono::Datelike;
use vstd::prelude::*;
use crate::text::{from_chars, push_str, sub_chars, to_chars, trim_chars, trim_end_seq, trim_end_chars, trim_seq};

verus! {

/// Characters of narrative shown with a search result.
pub const SNIPPET_CHARS: usize = 220;

/// Error body for a day that does not parse.
pub const INVALID_DATE: &'static str = "invalid date (expected YYYY-MM-DD)";

/// What `chrono::NaiveDate::parse_from_str(s, "%Y-%m-%d")` gives for `s`, as
/// year, month and day; nothing when it does not parse.
pub uninterp spec fn ymd_date(s: Seq<char>) -> Option<(i32, u32, u32)>;

/// Parses a `YYYY-MM-DD` day with `chrono`. The result is only named.
#[verifier::external_body]
fn parse_ymd_chrono(s: &str) -> (r: Option<(i32, u32, u32)>)
    ensures
        r == ymd_date(s@),
{
    match chrono::NaiveDate::parse_from_str(s, "%Y-%m-%d") {
        Ok(d) => Some((d.year(), d.month(), d.day())),
        Err(_) => None,
    }
}

/// A day as the journal takes it: trimmed, then `YYYY-MM-DD`.
pub fn parse_day(s: &str) -> (r: Option<(i32, u32, u32)>)
    ensures
        r == ymd_date(trim_seq(s@)),
{
    let t = from_chars(trim_chars(to_chars(s).as_slice()).as_slice());
    parse_ymd_chrono(t.as_str())
}

/// The day of a journal entry request, or the error answered for it.
pub fn parse_entry_day(s: &str) -> (r: Result<(i32, u32, u32), String>)
    ensures
        match ymd_date(trim_seq(s@)) {
            Some(d) => r == Ok::<(i32, u32, u32), String>(d),
            None => r matches Err(e) && e@ == INVALID_DATE@,
        },
{
    match parse_day(s) {
        Some(d) => Ok(d),
        None => Err(INVALID_DATE.to_owned()),
    }
}

/// Day order: by year, then month, then day (the order of
/// `chrono::NaiveDate` on valid days).
pub open spec fn day_le(a: (i32, u32, u32), b: (i32, u32, u32)) -> bool {
    a.0 < b.0 || (a.0 == b.0 && (a.1 < b.1 || (a.1 == b.1 && a.2 <= b.2)))
}

/// The inclusive search range: only when both bounds parse, earlier day
/// first (swapped bounds are tolerated).
pub open spec fn range_spec(from: Option<Seq<char>>, to: Option<Seq<char>>) -> Option<(
    (i32, u32, u32),
    (i32, u32, u32),
)> {
    let f = match from {
        Some(s) => ymd_date(trim_seq(s)),
        None => None,
    };
    let t = match to {
        Some(s) => ymd_date(trim_seq(s)),
        None => None,
    };
    match (f, t) {
        (Some(a), Some(b)) => if day_le(a, b) {
            Some((a, b))
        } else {
            Some((b, a))
        },
        _ => None,
    }
}

/// Law: a search range, whenever there is one, runs forward: its first day
/// is not after its last, whichever order the bounds came in.
pub proof fn lemma_range_runs_forward(from: Option<Seq<char>>, to: Option<Seq<char>>)
    ensures
        range_spec(from, to) matches Some(r) ==> day_le(r.0, r.1),
{
}

/// The optional inclusive search range from the request's `from` and `to`.
pub fn parse_range(from: Option<&str>, to: Option<&str>) -> (r: Option<((i32, u32, u32), (i32, u32, u32))>)
    ensures
        r == range_spec(
            match from {
                Some(s) => Some(s@),
                None => None,
            },
            match to {
                Some(s) => Some(s@),
                None => None,
            },
        ),
{
    let f = match from {
        Some(s) => parse_day(s),
        None => None,
    };
    let t = match to {
        Some(s) => parse_day(s),
        None => None,
    };
    match (f, t) {
        (Some(a), Some(b)) => {
            let le = a.0 < b.0 || (a.0 == b.0 && (a.1 < b.1 || (a.1 == b.1 && a.2 <= b.2)));
            if le {
                Some((a, b))
            } else {
                Some((b, a))
            }
        },
        _ => None,
    }
}

/// The search text: the query trimmed, nothing when that is empty.
pub fn search_text(query: Option<&str>) -> (r: Option<String>)
    ensures
        match query {
            Some(q) => if trim_seq(q@).len() > 0 {
                r matches Some(t) && t@ == trim_seq(q@)
            } else {
                r is None
            },
            None => r is None,
        },
{
    match query {
        Some(q) => {
            let t = trim_chars(to_chars(q).as_slice());
            if t.len() > 0 {
                Some(from_chars(t.as_slice()))
            } else {
                None
            }
        },
        None => None,
    }
}

/// The snippet of a narrative: all of it when it has at most 220
/// characters, else its first 220 with trailing whitespace trimmed and `…`
/// added.
pub open spec fn snippet_spec(narrative: Seq<char>) -> Seq<char> {
    if narrative.len() <= SNIPPET_CHARS {
        narrative
    } else {
        trim_end_seq(narrative.take(SNIPPET_CHARS as int)) + "…"@
    }
}

/// The snippet shown with a search result (see `snippet_spec`).
pub fn journal_snippet(narrative: &str) -> (s: String)
    ensures
        s@ == snippet_spec(narrative@),
{
    let cs = to_chars(narrative);
    if cs.len() <= SNIPPET_CHARS {
        return narrative.to_owned();
    }
    let head = sub_chars(cs.as_slice(), 0, SNIPPET_CHARS);
    assert(head@ =~= narrative@.take(SNIPPET_CHARS as int));
    let mut out = trim_end_chars(head.as_slice());
    push_str(&mut out, "…");
    from_chars(out.as_slice())
}

} // verus!
