//! Plain-English status chip and one-line detail for the Goals tab.
//!
//! The raw `current_activity` brain-log string of an active goal is turned
//! into a coarse status chip, a cleaned and capped one-line detail, and the
//! untouched original for click-to-expand.

use vstd::prelude::*;
use crate::text::{
    char_is_whitespace, chars_eq, contains_chars, contains_seq, first_index, from_chars,
    index_of_from, is_ws, lemma_first_index_bound, matches_at, occurs_at, push_all, replace_chars,
    replace_seq, sub_chars, to_chars, lemma_trim_end_prefix, trim_chars, trim_end_chars, trim_end_seq, trim_seq, utf8_len,
    utf8_len_exceeds,
};

verus! {

/// Status classification derived from the raw activity string.
#[derive(Debug, Clone, Copy, PartialEq, Eq, Structural)]
pub enum StatusChip {
    Working,
    Skipped,
    Failed,
    SpawnedEngineer,
    Waiting,
}

/// The chip label the dashboard renders.
pub open spec fn chip_label(c: StatusChip) -> Seq<char> {
    match c {
        StatusChip::Working => "Working"@,
        StatusChip::Skipped => "Skipped"@,
        StatusChip::Failed => "Failed"@,
        StatusChip::SpawnedEngineer => "Spawned engineer"@,
        StatusChip::Waiting => "Waiting"@,
    }
}

impl StatusChip {
    /// Operator-facing label rendered inside the chip element.
    pub fn as_str(self) -> (s: &'static str)
        ensures
            s@ == chip_label(self),
    {
        match self {
            StatusChip::Working => "Working",
            StatusChip::Skipped => "Skipped",
            StatusChip::Failed => "Failed",
            StatusChip::SpawnedEngineer => "Spawned engineer",
            StatusChip::Waiting => "Waiting",
        }
    }
}

/// Hard cap on the `detail` field, in characters (the ellipsis comes on top).
pub const DETAIL_MAX_CHARS: usize = 140;

/// Coarse status of a raw activity string; the first matching rule wins.
pub open spec fn classify_spec(raw: Seq<char>) -> StatusChip {
    if contains_seq(raw, " (failed)"@) || contains_seq(raw, "(failed):"@) {
        StatusChip::Failed
    } else if contains_seq(raw, "spawn_engineer dispatched"@) {
        StatusChip::SpawnedEngineer
    } else if contains_seq(raw, "continue_skipping"@) {
        StatusChip::Skipped
    } else {
        StatusChip::Working
    }
}

/// Pick the status chip from the raw string.
pub fn classify(raw: &[char]) -> (c: StatusChip)
    ensures
        c == classify_spec(raw@),
{
    let f1 = to_chars(" (failed)");
    let f2 = to_chars("(failed):");
    let sp = to_chars("spawn_engineer dispatched");
    let sk = to_chars("continue_skipping");
    if contains_chars(raw, f1.as_slice()) || contains_chars(raw, f2.as_slice()) {
        StatusChip::Failed
    } else if contains_chars(raw, sp.as_slice()) {
        StatusChip::SpawnedEngineer
    } else if contains_chars(raw, sk.as_slice()) {
        StatusChip::Skipped
    } else {
        StatusChip::Working
    }
}

// ---------------------------------------------------------------------------
// Launcher-noise stripping
// ---------------------------------------------------------------------------

/// What follows the first `.` or newline of `t` (empty when there is none).
pub open spec fn skip_past_terminator(t: Seq<char>) -> Seq<char>
    decreases t.len(),
{
    if t.len() == 0 {
        t
    } else if t[0] == '.' || t[0] == '\n' {
        t.skip(1)
    } else {
        skip_past_terminator(t.skip(1))
    }
}

pub proof fn lemma_skip_past_terminator_len(t: Seq<char>)
    ensures
        skip_past_terminator(t).len() <= t.len(),
    decreases t.len(),
{
    if t.len() > 0 && !(t[0] == '.' || t[0] == '\n') {
        lemma_skip_past_terminator_len(t.skip(1));
    }
}

/// `out` followed by `s` with every occurrence of `marker` removed together
/// with the text after it up to and including the next `.`/newline (or to the
/// end when no terminator follows).
pub open spec fn strip_marker_fold(s: Seq<char>, marker: Seq<char>, out: Seq<char>) -> Seq<char>
    decreases s.len(),
{
    if s.len() == 0 {
        out
    } else if marker.len() > 0 && occurs_at(s, marker, 0) {
        proof {
            lemma_skip_past_terminator_len(s.skip(marker.len() as int));
        }
        strip_marker_fold(skip_past_terminator(s.skip(marker.len() as int)), marker, out)
    } else {
        strip_marker_fold(s.skip(1), marker, out.push(s[0]))
    }
}

/// `s` with each `marker` and its tail up to the next terminator removed.
pub open spec fn strip_marker_spec(s: Seq<char>, marker: Seq<char>) -> Seq<char> {
    strip_marker_fold(s, marker, Seq::empty())
}

/// Absolute index just past the first `.`/newline at or after `from`.
fn skip_terminator_from(s: &[char], from: usize) -> (k: usize)
    requires
        from <= s.len(),
    ensures
        from <= k <= s.len(),
        s@.skip(k as int) == skip_past_terminator(s@.skip(from as int)),
{
    let mut j: usize = from;
    while j < s.len() && s[j] != '.' && s[j] != '\n'
        invariant
            from <= j <= s.len(),
            skip_past_terminator(s@.skip(from as int)) == skip_past_terminator(s@.skip(j as int)),
        decreases s.len() - j,
    {
        assert(s@.skip(j as int).skip(1) =~= s@.skip(j + 1));
        j = j + 1;
    }
    if j < s.len() {
        assert(s@.skip(j as int).skip(1) =~= s@.skip(j + 1));
        j + 1
    } else {
        assert(s@.skip(j as int) =~= Seq::<char>::empty());
        j
    }
}

/// Remove `marker` and the text after it up to the next terminator.
pub fn strip_phrase_until_terminator(s: &[char], marker: &[char]) -> (out: Vec<char>)
    ensures
        out@ == strip_marker_spec(s@, marker@),
{
    let mut out: Vec<char> = Vec::new();
    let mut i: usize = 0;
    assert(s@.skip(0) =~= s@);
    while i < s.len()
        invariant
            i <= s.len(),
            strip_marker_spec(s@, marker@) == strip_marker_fold(s@.skip(i as int), marker@, out@),
        decreases s.len() - i,
    {
        let ghost rest = s@.skip(i as int);
        if marker.len() > 0 && matches_at(s, marker, i) {
            assert(rest.subrange(0, marker@.len() as int) =~= s@.subrange(i as int, i + marker@.len()));
            assert(rest.skip(marker.len() as int) =~= s@.skip(i + marker.len()));
            i = skip_terminator_from(s, i + marker.len());
        } else {
            proof {
                if marker.len() > 0 && rest.len() >= marker@.len() {
                    assert(rest.subrange(0, marker@.len() as int) =~= s@.subrange(i as int, i + marker@.len()));
                }
            }
            assert(rest.skip(1) =~= s@.skip(i + 1));
            out.push(s[i]);
            i = i + 1;
        }
    }
    assert(s@.skip(i as int) =~= Seq::<char>::empty());
    out
}

/// The launcher-warning marker stripped from each line, in order.
pub open spec fn launcher_marker_long() -> Seq<char> {
    "Warning: Could not read Copilot config.json"@
}

/// The shorter launcher-warning marker.
pub open spec fn launcher_marker_short() -> Seq<char> {
    "Could not read Copilot config"@
}

/// One line with both launcher markers stripped.
pub open spec fn clean_line_spec(line: Seq<char>) -> Seq<char> {
    strip_marker_spec(strip_marker_spec(line, launcher_marker_long()), launcher_marker_short())
}

/// The lines of `s` (split on `\n`), each launcher-stripped, joined by spaces.
pub open spec fn clean_lines_spec(s: Seq<char>) -> Seq<char>
    decreases s.len(),
{
    let k = first_index(s, '\n');
    if k < s.len() {
        proof {
            lemma_first_index_bound(s, '\n');
        }
        clean_line_spec(s.take(k)) + seq![' '] + clean_lines_spec(s.skip(k + 1))
    } else {
        clean_line_spec(s)
    }
}

fn clean_line(line: &[char]) -> (out: Vec<char>)
    ensures
        out@ == clean_line_spec(line@),
{
    let m1 = to_chars("Warning: Could not read Copilot config.json");
    let m2 = to_chars("Could not read Copilot config");
    let a = strip_phrase_until_terminator(line, m1.as_slice());
    strip_phrase_until_terminator(a.as_slice(), m2.as_slice())
}

fn clean_lines(s: &[char]) -> (out: Vec<char>)
    ensures
        out@ == clean_lines_spec(s@),
{
    let mut out: Vec<char> = Vec::new();
    let mut start: usize = 0;
    assert(s@.skip(0) =~= s@);
    loop
        invariant
            start <= s.len(),
            clean_lines_spec(s@) == out@ + clean_lines_spec(s@.skip(start as int)),
        decreases s.len() - start,
    {
        let ghost rest = s@.skip(start as int);
        let k = index_of_from(s, '\n', start);
        let line = sub_chars(s, start, k);
        let cleaned = clean_line(line.as_slice());
        if k < s.len() {
            assert(rest.take(k - start) =~= line@);
            assert(rest.skip(k - start + 1) =~= s@.skip(k + 1));
            let ghost before = out@;
            push_all(&mut out, cleaned.as_slice());
            out.push(' ');
            assert(out@ + clean_lines_spec(s@.skip(k + 1)) =~= before + (clean_line_spec(
                rest.take(k - start),
            ) + seq![' '] + clean_lines_spec(rest.skip(k - start + 1))));
            start = k + 1;
        } else {
            assert(rest =~= line@);
            push_all(&mut out, cleaned.as_slice());
            return out;
        }
    }
}

// ---------------------------------------------------------------------------
// Noisy parenthetical groups
// ---------------------------------------------------------------------------

/// Brain vocabulary stripped from the detail, longer phrases first.
pub open spec fn noise_phrase(i: int) -> Seq<char> {
    if i == 0 {
        "brain-error fallback"@
    } else if i == 1 {
        "goal-action parse failed"@
    } else if i == 2 {
        "spawn_engineer dispatched"@
    } else if i == 3 {
        "continue_skipping"@
    } else if i == 4 {
        "ooda-brain"@
    } else {
        "brain:"@
    }
}

/// A parenthesised body is noisy when it holds brain vocabulary or a
/// launcher warning.
pub open spec fn is_noisy(body: Seq<char>) -> bool {
    ||| exists|i: int| 0 <= i < 6 && contains_seq(body, #[trigger] noise_phrase(i))
    ||| contains_seq(body, launcher_marker_long())
    ||| contains_seq(body, launcher_marker_short())
}

fn body_is_noisy(body: &[char]) -> (b: bool)
    ensures
        b == is_noisy(body@),
{
    let p0 = to_chars("brain-error fallback");
    let p1 = to_chars("goal-action parse failed");
    let p2 = to_chars("spawn_engineer dispatched");
    let p3 = to_chars("continue_skipping");
    let p4 = to_chars("ooda-brain");
    let p5 = to_chars("brain:");
    let m1 = to_chars("Warning: Could not read Copilot config.json");
    let m2 = to_chars("Could not read Copilot config");
    let c0 = contains_chars(body, p0.as_slice());
    let c1 = contains_chars(body, p1.as_slice());
    let c2 = contains_chars(body, p2.as_slice());
    let c3 = contains_chars(body, p3.as_slice());
    let c4 = contains_chars(body, p4.as_slice());
    let c5 = contains_chars(body, p5.as_slice());
    let d1 = contains_chars(body, m1.as_slice());
    let d2 = contains_chars(body, m2.as_slice());
    assert(noise_phrase(0) == p0@ && noise_phrase(1) == p1@ && noise_phrase(2) == p2@
        && noise_phrase(3) == p3@ && noise_phrase(4) == p4@ && noise_phrase(5) == p5@);
    if c0 || c1 || c2 || c3 || c4 || c5 {
        proof {
            if c0 {
                assert(contains_seq(body@, noise_phrase(0)));
            } else if c1 {
                assert(contains_seq(body@, noise_phrase(1)));
            } else if c2 {
                assert(contains_seq(body@, noise_phrase(2)));
            } else if c3 {
                assert(contains_seq(body@, noise_phrase(3)));
            } else if c4 {
                assert(contains_seq(body@, noise_phrase(4)));
            } else {
                assert(contains_seq(body@, noise_phrase(5)));
            }
        }
        true
    } else {
        assert forall|i: int| 0 <= i < 6 implies !contains_seq(body@, #[trigger] noise_phrase(i)) by {
            if i == 0 {
            } else if i == 1 {
            } else if i == 2 {
            } else if i == 3 {
            } else if i == 4 {
            } else {
            }
        }
        d1 || d2
    }
}

/// Shift an index found in a suffix back to the enclosing sequence.
pub open spec fn shift(o: Option<int>, k: int) -> Option<int> {
    match o {
        Some(x) => Some(x + k),
        None => None,
    }
}

/// Index in `t` of the `)` that brings the nesting `depth` to zero.
pub open spec fn close_index(t: Seq<char>, depth: int) -> Option<int>
    decreases t.len(),
{
    if t.len() == 0 {
        None
    } else if t[0] == '(' {
        shift(close_index(t.skip(1), depth + 1), 1)
    } else if t[0] == ')' {
        if depth == 1 {
            Some(0)
        } else {
            shift(close_index(t.skip(1), depth - 1), 1)
        }
    } else {
        shift(close_index(t.skip(1), depth), 1)
    }
}

pub proof fn lemma_close_index_bound(t: Seq<char>, depth: int)
    ensures
        close_index(t, depth) matches Some(e) ==> 0 <= e < t.len(),
    decreases t.len(),
{
    if t.len() > 0 {
        lemma_close_index_bound(t.skip(1), depth + 1);
        lemma_close_index_bound(t.skip(1), depth - 1);
        lemma_close_index_bound(t.skip(1), depth);
    }
}

/// `out` followed by `s` with every top-level `(...)` group whose body is
/// noisy replaced by a single space (nested groups go with their parent).
pub open spec fn drop_parens_fold(s: Seq<char>, out: Seq<char>) -> Seq<char>
    decreases s.len(),
{
    if s.len() == 0 {
        out
    } else if s[0] == '(' && close_index(s.skip(1), 1) is Some && is_noisy(
        s.subrange(1, 1 + close_index(s.skip(1), 1)->0),
    ) {
        proof {
            lemma_close_index_bound(s.skip(1), 1);
        }
        drop_parens_fold(s.skip(2 + close_index(s.skip(1), 1)->0), out.push(' '))
    } else {
        drop_parens_fold(s.skip(1), out.push(s[0]))
    }
}

/// `s` with its noisy parenthetical groups removed.
pub open spec fn drop_noisy_parens_spec(s: Seq<char>) -> Seq<char> {
    drop_parens_fold(s, Seq::empty())
}

/// Absolute index of the `)` matching the `(` at `i`, if any.
fn matching_close(s: &[char], i: usize) -> (r: Option<usize>)
    requires
        i < s.len(),
    ensures
        shift(close_index(s@.skip(i + 1), 1), i + 1) == match r {
            Some(e) => Some(e as int),
            None => None::<int>,
        },
{
    let mut j: usize = i + 1;
    let mut depth: usize = 1;
    assert(shift(close_index(s@.skip(i + 1), 1), i + 1) == shift(close_index(s@.skip(j as int), depth as int), j as int));
    while j < s.len()
        invariant
            i + 1 <= j <= s.len(),
            1 <= depth <= j - i,
            shift(close_index(s@.skip(i + 1), 1), i + 1) == shift(close_index(s@.skip(j as int), depth as int), j as int),
        decreases s.len() - j,
    {
        let ghost t = s@.skip(j as int);
        assert(t.skip(1) =~= s@.skip(j + 1));
        assert(t[0] == s@[j as int]);
        if s[j] == '(' {
            depth = depth + 1;
        } else if s[j] == ')' {
            if depth == 1 {
                return Some(j);
            }
            depth = depth - 1;
        }
        j = j + 1;
    }
    assert(s@.skip(j as int) =~= Seq::<char>::empty());
    None
}

/// Remove top-level `(...)` groups whose body contains a noise marker.
pub fn drop_noisy_parens(s: &[char]) -> (out: Vec<char>)
    ensures
        out@ == drop_noisy_parens_spec(s@),
{
    let mut out: Vec<char> = Vec::new();
    let mut i: usize = 0;
    assert(s@.skip(0) =~= s@);
    while i < s.len()
        invariant
            i <= s.len(),
            drop_noisy_parens_spec(s@) == drop_parens_fold(s@.skip(i as int), out@),
        decreases s.len() - i,
    {
        let ghost rest = s@.skip(i as int);
        assert(rest[0] == s@[i as int]);
        assert(rest.skip(1) =~= s@.skip(i + 1));
        let mut dropped = false;
        if s[i] == '(' {
            match matching_close(s, i) {
                Some(e) => {
                    proof {
                        lemma_close_index_bound(rest.skip(1), 1);
                    }
                    let body = sub_chars(s, i + 1, e);
                    let ghost ce = close_index(rest.skip(1), 1)->0;
                    assert(e == i + 1 + ce);
                    assert(rest.subrange(1, 1 + ce) =~= body@);
                    if body_is_noisy(body.as_slice()) {
                        assert(rest.skip(2 + ce) =~= s@.skip(e + 1));
                        out.push(' ');
                        i = e + 1;
                        dropped = true;
                    }
                },
                None => {},
            }
        }
        if !dropped {
            out.push(s[i]);
            i = i + 1;
        }
    }
    assert(s@.skip(i as int) =~= Seq::<char>::empty());
    out
}


// ---------------------------------------------------------------------------
// Orphan punctuation
// ---------------------------------------------------------------------------

/// Every character of `t` is whitespace.
pub open spec fn all_ws(t: Seq<char>) -> bool {
    forall|j: int| 0 <= j < t.len() ==> is_ws(#[trigger] t[j])
}

/// `out` followed by `s` with every pair of `quote`s enclosing only
/// whitespace replaced by a single space.
pub open spec fn drop_quoted_fold(s: Seq<char>, quote: char, out: Seq<char>) -> Seq<char>
    decreases s.len(),
{
    if s.len() == 0 {
        out
    } else if s[0] == quote && first_index(s.skip(1), quote) < s.len() - 1 && all_ws(
        s.subrange(1, 1 + first_index(s.skip(1), quote)),
    ) {
        proof {
            lemma_first_index_bound(s.skip(1), quote);
        }
        drop_quoted_fold(s.skip(2 + first_index(s.skip(1), quote)), quote, out.push(' '))
    } else {
        drop_quoted_fold(s.skip(1), quote, out.push(s[0]))
    }
}

/// `s` without its empty (whitespace-only) `quote`-delimited strings.
pub open spec fn drop_empty_quoted_spec(s: Seq<char>, quote: char) -> Seq<char> {
    drop_quoted_fold(s, quote, Seq::empty())
}

fn all_whitespace(t: &[char]) -> (b: bool)
    ensures
        b == all_ws(t@),
{
    let mut i: usize = 0;
    while i < t.len()
        invariant
            i <= t.len(),
            forall|j: int| 0 <= j < i ==> is_ws(#[trigger] t@[j]),
        decreases t.len() - i,
    {
        if !char_is_whitespace(t[i]) {
            return false;
        }
        i = i + 1;
    }
    true
}

/// Single-pass removal of whitespace-only quoted strings.
pub fn drop_empty_quoted(s: &[char], quote: char) -> (out: Vec<char>)
    ensures
        out@ == drop_empty_quoted_spec(s@, quote),
{
    let mut out: Vec<char> = Vec::new();
    let mut i: usize = 0;
    assert(s@.skip(0) =~= s@);
    while i < s.len()
        invariant
            i <= s.len(),
            drop_empty_quoted_spec(s@, quote) == drop_quoted_fold(s@.skip(i as int), quote, out@),
        decreases s.len() - i,
    {
        let ghost rest = s@.skip(i as int);
        assert(rest[0] == s@[i as int]);
        assert(rest.skip(1) =~= s@.skip(i + 1));
        let mut dropped = false;
        if s[i] == quote {
            let e = index_of_from(s, quote, i + 1);
            proof {
                lemma_first_index_bound(rest.skip(1), quote);
            }
            let ghost k = first_index(rest.skip(1), quote);
            assert(e == i + 1 + k);
            if e < s.len() {
                let body = sub_chars(s, i + 1, e);
                assert(rest.subrange(1, 1 + k) =~= body@);
                if all_whitespace(body.as_slice()) {
                    assert(rest.skip(2 + k) =~= s@.skip(e + 1));
                    out.push(' ');
                    i = e + 1;
                    dropped = true;
                }
            }
        }
        if !dropped {
            out.push(s[i]);
            i = i + 1;
        }
    }
    assert(s@.skip(i as int) =~= Seq::<char>::empty());
    out
}

/// One quote-dropping pass: single quotes, then double quotes.
pub open spec fn quote_pass(s: Seq<char>) -> Seq<char> {
    drop_empty_quoted_spec(drop_empty_quoted_spec(s, '\''), '"')
}

/// Up to `n` quote-dropping passes, stopping once a pass changes nothing.
pub open spec fn quote_passes(s: Seq<char>, n: nat) -> Seq<char>
    decreases n,
{
    if n == 0 {
        s
    } else if quote_pass(s) == s {
        s
    } else {
        quote_passes(quote_pass(s), (n - 1) as nat)
    }
}

/// `:`, `(` and `)` are dropped when they stand alone.
pub open spec fn is_structural(c: char) -> bool {
    c == ':' || c == '(' || c == ')'
}

/// Punctuation that is no content of its own.
pub open spec fn is_punct(c: char) -> bool {
    is_structural(c) || c == ',' || c == ';'
}

/// Position `j` of `t` holds no content: it is outside `t`, whitespace or
/// punctuation.
pub open spec fn no_content(t: Seq<char>, j: int) -> bool {
    j < 0 || j >= t.len() || is_ws(t[j]) || is_punct(t[j])
}

/// The `:`, `(` or `)` at `i` is lone: no content touches it on either side.
pub open spec fn is_lone(t: Seq<char>, i: int) -> bool {
    is_structural(t[i]) && no_content(t, i - 1) && no_content(t, i + 1)
}

/// The first `n` characters of `t` without the lone ones.
pub open spec fn kept_prefix(t: Seq<char>, n: nat) -> Seq<char>
    decreases n,
{
    if n == 0 {
        Seq::empty()
    } else if is_lone(t, n - 1) {
        kept_prefix(t, (n - 1) as nat)
    } else {
        kept_prefix(t, (n - 1) as nat).push(t[n - 1])
    }
}

/// How many `(` of `s` are still open at its end: each `)` closes the
/// nearest open one, and a `)` with none open closes nothing.
pub open spec fn open_depth(s: Seq<char>) -> nat
    decreases s.len(),
{
    if s.len() == 0 {
        0
    } else if s.last() == '(' {
        open_depth(s.drop_last()) + 1
    } else if s.last() == ')' && open_depth(s.drop_last()) > 0 {
        (open_depth(s.drop_last()) - 1) as nat
    } else {
        open_depth(s.drop_last())
    }
}

/// The last character of `s` (non-empty) is removed once punctuation
/// collapsing is done: a `:`, `,`, `;`, `(` or space there leads nowhere,
/// and so does a `)` that closes no `(` (one that closes a parenthesis
/// stays).
pub open spec fn ends_in_junk(s: Seq<char>) -> bool {
    let c = s.last();
    ||| c == ':' || c == ',' || c == ';' || c == '(' || c == ' '
    ||| (c == ')' && open_depth(s.drop_last()) == 0)
}

/// `s` without its trailing junk characters.
pub open spec fn trim_junk_end(s: Seq<char>) -> Seq<char>
    decreases s.len(),
{
    if s.len() > 0 && ends_in_junk(s) {
        trim_junk_end(s.drop_last())
    } else {
        s
    }
}

fn open_depth_of(s: &[char], n: usize) -> (d: usize)
    requires
        n <= s.len(),
    ensures
        d == open_depth(s@.take(n as int)),
{
    let mut d: usize = 0;
    let mut i: usize = 0;
    assert(s@.take(0) =~= Seq::<char>::empty());
    while i < n
        invariant
            i <= n <= s.len(),
            d == open_depth(s@.take(i as int)),
            d <= i,
        decreases n - i,
    {
        assert(s@.take(i + 1).drop_last() =~= s@.take(i as int));
        assert(s@.take(i + 1).last() == s@[i as int]);
        if s[i] == '(' {
            d = d + 1;
        } else if s[i] == ')' && d > 0 {
            d = d - 1;
        }
        i = i + 1;
    }
    d
}

/// Orphan punctuation left behind by phrase stripping, removed: empty
/// quoted strings, lone `:` / `(` / `)`, and trailing punctuation that leads
/// nowhere.
pub open spec fn collapse_punctuation_spec(s: Seq<char>) -> Seq<char> {
    let t = quote_passes(s, 3);
    trim_junk_end(kept_prefix(t, t.len()))
}

fn no_content_at(t: &[char], j: usize) -> (b: bool)
    ensures
        b == no_content(t@, j as int),
{
    if j >= t.len() {
        return true;
    }
    let c = t[j];
    char_is_whitespace(c) || c == ':' || c == '(' || c == ')' || c == ',' || c == ';'
}

/// Remove orphan punctuation: empty quoted strings, lone `:`/`(`/`)` and
/// trailing punctuation that leads nowhere.
pub fn collapse_punctuation(s: &[char]) -> (out: Vec<char>)
    ensures
        out@ == collapse_punctuation_spec(s@),
{
    let mut cur = sub_chars(s, 0, s.len());
    assert(s@.subrange(0, s@.len() as int) =~= s@);
    let mut pass: usize = 0;
    while pass < 3
        invariant
            pass <= 3,
            quote_passes(s@, 3) == quote_passes(cur@, (3 - pass) as nat),
        ensures
            quote_passes(s@, 3) == cur@,
        decreases 3 - pass,
    {
        let a = drop_empty_quoted(cur.as_slice(), '\'');
        let b = drop_empty_quoted(a.as_slice(), '"');
        if chars_eq(b.as_slice(), cur.as_slice()) {
            break;
        }
        cur = b;
        pass = pass + 1;
    }
    let mut mid: Vec<char> = Vec::new();
    let mut i: usize = 0;
    while i < cur.len()
        invariant
            i <= cur.len(),
            mid@ == kept_prefix(cur@, i as nat),
        decreases cur.len() - i,
    {
        let c = cur[i];
        let left = if i == 0 {
            true
        } else {
            no_content_at(cur.as_slice(), i - 1)
        };
        let right = no_content_at(cur.as_slice(), i + 1);
        let lone = (c == ':' || c == '(' || c == ')') && left && right;
        if !lone {
            mid.push(c);
        }
        i = i + 1;
    }
    let mut n: usize = mid.len();
    assert(mid@.take(n as int) =~= mid@);
    loop
        invariant
            n <= mid.len(),
            trim_junk_end(mid@) == trim_junk_end(mid@.take(n as int)),
        ensures
            n <= mid.len(),
            trim_junk_end(mid@) == mid@.take(n as int),
        decreases n,
    {
        if n == 0 {
            assert(mid@.take(0) =~= Seq::<char>::empty());
            break;
        }
        let c = mid[n - 1];
        let ghost t = mid@.take(n as int);
        assert(t.drop_last() =~= mid@.take(n - 1));
        assert(t.last() == c);
        let junk = c == ':' || c == ',' || c == ';' || c == '(' || c == ' ' || (c == ')'
            && open_depth_of(mid.as_slice(), n - 1) == 0);
        if !junk {
            break;
        }
        n = n - 1;
    }
    assert(mid@.take(n as int) =~= mid@.subrange(0, n as int));
    sub_chars(mid.as_slice(), 0, n)
}

// ---------------------------------------------------------------------------
// Whitespace normalisation, truncation and the whole pipeline
// ---------------------------------------------------------------------------

/// `out` followed by the words of `s` (maximal runs of non-whitespace), each
/// word separated from the previous output by exactly one space; `pending`
/// records that whitespace was seen since the last word.
pub open spec fn words_fold(s: Seq<char>, out: Seq<char>, pending: bool) -> Seq<char>
    decreases s.len(),
{
    if s.len() == 0 {
        out
    } else if is_ws(s[0]) {
        words_fold(s.skip(1), out, out.len() > 0)
    } else if pending {
        words_fold(s.skip(1), out.push(' ').push(s[0]), false)
    } else {
        words_fold(s.skip(1), out.push(s[0]), false)
    }
}

/// The words of `s` joined by single spaces
/// (`split_whitespace().collect::<Vec<_>>().join(" ")`).
pub open spec fn join_words_spec(s: Seq<char>) -> Seq<char> {
    words_fold(s, Seq::empty(), false)
}

/// The words of `s` joined by single spaces.
pub fn join_words(s: &[char]) -> (out: Vec<char>)
    ensures
        out@ == join_words_spec(s@),
{
    let mut out: Vec<char> = Vec::new();
    let mut pending = false;
    let mut i: usize = 0;
    assert(s@.skip(0) =~= s@);
    while i < s.len()
        invariant
            i <= s.len(),
            join_words_spec(s@) == words_fold(s@.skip(i as int), out@, pending),
        decreases s.len() - i,
    {
        let ghost rest = s@.skip(i as int);
        assert(rest[0] == s@[i as int]);
        assert(rest.skip(1) =~= s@.skip(i + 1));
        let c = s[i];
        if char_is_whitespace(c) {
            pending = out.len() > 0;
        } else {
            if pending {
                out.push(' ');
            }
            out.push(c);
            pending = false;
        }
        i = i + 1;
    }
    assert(s@.skip(i as int) =~= Seq::<char>::empty());
    out
}

/// Brain vocabulary and the redundant `(failed)` markers replaced by spaces.
pub open spec fn strip_vocabulary_spec(s: Seq<char>) -> Seq<char> {
    let a = replace_seq(s, noise_phrase(0), " "@);
    let b = replace_seq(a, noise_phrase(1), " "@);
    let c = replace_seq(b, noise_phrase(2), " "@);
    let d = replace_seq(c, noise_phrase(3), " "@);
    let e = replace_seq(d, noise_phrase(4), " "@);
    let f = replace_seq(e, noise_phrase(5), " "@);
    replace_seq(replace_seq(f, "(failed):"@, " "@), "(failed)"@, " "@)
}

/// The plain-English detail: launcher noise stripped per line, noisy
/// parenthetical groups dropped, brain vocabulary removed, orphan punctuation
/// collapsed, whitespace normalised.
pub open spec fn clean_detail_spec(raw: Seq<char>) -> Seq<char> {
    scrub(
        join_words_spec(
            collapse_punctuation_spec(strip_vocabulary_spec(drop_noisy_parens_spec(clean_lines_spec(raw)))),
        ),
    )
}

/// The phrases a detail never shows: the brain vocabulary and the launcher
/// warning.
pub open spec fn noise_word(i: int) -> Seq<char> {
    if i < 6 {
        noise_phrase(i)
    } else {
        launcher_marker_short()
    }
}

/// `s` shows one of the noise phrases.
pub open spec fn has_noise(s: Seq<char>) -> bool {
    exists|i: int| 0 <= i < 7 && contains_seq(s, #[trigger] noise_word(i))
}

/// `s` with noise phrases `k..7` replaced by spaces, one after the other.
pub open spec fn strip_noise_from(s: Seq<char>, k: int) -> Seq<char>
    decreases 7 - k,
{
    if k >= 7 || k < 0 {
        s
    } else {
        strip_noise_from(replace_seq(s, noise_word(k), " "@), k + 1)
    }
}

/// Repeats stripping the noise phrases and normalising whitespace until no
/// noise phrase shows (joining words could bring two halves of one back
/// together); each round is shorter than the last.
pub open spec fn scrub(s: Seq<char>) -> Seq<char>
    decreases s.len(),
{
    if !has_noise(s) {
        s
    } else {
        let t = join_words_spec(strip_noise_from(s, 0));
        if t.len() < s.len() {
            scrub(t)
        } else {
            t
        }
    }
}

fn strip_vocabulary(s: &[char]) -> (out: Vec<char>)
    ensures
        out@ == strip_vocabulary_spec(s@),
{
    let p0 = to_chars("brain-error fallback");
    let p1 = to_chars("goal-action parse failed");
    let p2 = to_chars("spawn_engineer dispatched");
    let p3 = to_chars("continue_skipping");
    let p4 = to_chars("ooda-brain");
    let p5 = to_chars("brain:");
    let f1 = to_chars("(failed):");
    let f2 = to_chars("(failed)");
    let sp = to_chars(" ");
    proof {
        reveal_strlit("brain-error fallback");
        reveal_strlit("goal-action parse failed");
        reveal_strlit("spawn_engineer dispatched");
        reveal_strlit("continue_skipping");
        reveal_strlit("ooda-brain");
        reveal_strlit("brain:");
        reveal_strlit("(failed):");
        reveal_strlit("(failed)");
    }
    let a = replace_chars(s, p0.as_slice(), sp.as_slice());
    let b = replace_chars(a.as_slice(), p1.as_slice(), sp.as_slice());
    let c = replace_chars(b.as_slice(), p2.as_slice(), sp.as_slice());
    let d = replace_chars(c.as_slice(), p3.as_slice(), sp.as_slice());
    let e = replace_chars(d.as_slice(), p4.as_slice(), sp.as_slice());
    let f = replace_chars(e.as_slice(), p5.as_slice(), sp.as_slice());
    let g = replace_chars(f.as_slice(), f1.as_slice(), sp.as_slice());
    replace_chars(g.as_slice(), f2.as_slice(), sp.as_slice())
}

/// Strip brain vocabulary, launcher noise and structural punctuation from the
/// raw string, then normalise whitespace.
pub fn clean_detail(raw: &[char]) -> (out: Vec<char>)
    ensures
        out@ == clean_detail_spec(raw@),
{
    let a = clean_lines(raw);
    let b = drop_noisy_parens(a.as_slice());
    let c = strip_vocabulary(b.as_slice());
    let d = collapse_punctuation(c.as_slice());
    let e = join_words(d.as_slice());
    scrub_noise(e)
}

fn noise_words() -> (v: Vec<Vec<char>>)
    ensures
        v@.len() == 7,
        forall|i: int| 0 <= i < 7 ==> (#[trigger] v@[i])@ == noise_word(i) && v@[i]@.len() >= 2,
{
    proof {
        reveal_strlit("brain-error fallback");
        reveal_strlit("goal-action parse failed");
        reveal_strlit("spawn_engineer dispatched");
        reveal_strlit("continue_skipping");
        reveal_strlit("ooda-brain");
        reveal_strlit("brain:");
        reveal_strlit("Could not read Copilot config");
    }
    let mut v: Vec<Vec<char>> = Vec::new();
    v.push(to_chars("brain-error fallback"));
    v.push(to_chars("goal-action parse failed"));
    v.push(to_chars("spawn_engineer dispatched"));
    v.push(to_chars("continue_skipping"));
    v.push(to_chars("ooda-brain"));
    v.push(to_chars("brain:"));
    v.push(to_chars("Could not read Copilot config"));
    v
}

fn has_noise_exec(s: &[char], words: &Vec<Vec<char>>) -> (b: bool)
    requires
        words@.len() == 7,
        forall|i: int| 0 <= i < 7 ==> (#[trigger] words@[i])@ == noise_word(i),
    ensures
        b == has_noise(s@),
{
    let mut k: usize = 0;
    while k < 7
        invariant
            k <= 7,
            words@.len() == 7,
            forall|i: int| 0 <= i < 7 ==> (#[trigger] words@[i])@ == noise_word(i),
            forall|i: int| 0 <= i < k ==> !contains_seq(s@, #[trigger] noise_word(i)),
        decreases 7 - k,
    {
        if contains_chars(s, words[k].as_slice()) {
            assert(contains_seq(s@, noise_word(k as int)));
            return true;
        }
        k = k + 1;
    }
    false
}

fn strip_noise(s: &[char], words: &Vec<Vec<char>>) -> (out: Vec<char>)
    requires
        words@.len() == 7,
        forall|i: int| 0 <= i < 7 ==> (#[trigger] words@[i])@ == noise_word(i) && words@[i]@.len() >= 2,
    ensures
        out@ == strip_noise_from(s@, 0),
{
    proof {
        reveal_strlit(" ");
    }
    let sp = to_chars(" ");
    let mut cur = sub_chars(s, 0, s.len());
    assert(cur@ =~= s@);
    let mut k: usize = 0;
    while k < 7
        invariant
            k <= 7,
            sp@ == " "@,
            words@.len() == 7,
            forall|i: int| 0 <= i < 7 ==> (#[trigger] words@[i])@ == noise_word(i) && words@[i]@.len() >= 2,
            strip_noise_from(s@, 0) == strip_noise_from(cur@, k as int),
        decreases 7 - k,
    {
        assert(words@[k as int]@.len() >= 2);
        cur = replace_chars(cur.as_slice(), words[k].as_slice(), sp.as_slice());
        k = k + 1;
    }
    cur
}

fn scrub_noise(s: Vec<char>) -> (out: Vec<char>)
    ensures
        out@ == scrub(s@),
{
    let words = noise_words();
    let mut cur = s;
    while has_noise_exec(cur.as_slice(), &words)
        invariant
            words@.len() == 7,
            forall|i: int| 0 <= i < 7 ==> (#[trigger] words@[i])@ == noise_word(i) && words@[i]@.len() >= 2,
            scrub(s@) == scrub(cur@),
        decreases cur@.len(),
    {
        let stripped = strip_noise(cur.as_slice(), &words);
        let t = join_words(stripped.as_slice());
        if t.len() < cur.len() {
            cur = t;
        } else {
            return t;
        }
    }
    cur
}


/// Index of the last whitespace character of `s`.
pub open spec fn last_ws_index(s: Seq<char>) -> Option<int>
    decreases s.len(),
{
    if s.len() == 0 {
        None
    } else if is_ws(s.last()) {
        Some(s.len() - 1)
    } else {
        last_ws_index(s.drop_last())
    }
}

/// `s` capped to `max` characters: unchanged when it fits; otherwise its first
/// `max` characters, cut back to the last word boundary unless that would
/// discard more than 20 bytes, trailing whitespace trimmed, then `…`.
pub open spec fn cap_chars_spec(s: Seq<char>, max: nat) -> Seq<char> {
    if s.len() <= max {
        s
    } else {
        let slice = s.take(max as int);
        match last_ws_index(slice) {
            Some(k) => if utf8_len(slice.skip(k)) > 20 {
                trim_end_seq(slice) + seq!['\u{2026}']
            } else {
                trim_end_seq(slice.take(k)) + seq!['\u{2026}']
            },
            None => trim_end_seq(slice) + seq!['\u{2026}'],
        }
    }
}

/// Truncate `s` to at most `max_chars` characters, appending an ellipsis when
/// truncation occurred.
pub fn cap_chars(s: &[char], max_chars: usize) -> (out: Vec<char>)
    ensures
        out@ == cap_chars_spec(s@, max_chars as nat),
{
    if s.len() <= max_chars {
        return sub_chars(s, 0, s.len());
    }
    let slice = sub_chars(s, 0, max_chars);
    assert(slice@ =~= s@.take(max_chars as int));
    let mut k: usize = slice.len();
    assert(slice@.take(k as int) =~= slice@);
    while k > 0 && !char_is_whitespace(slice[k - 1])
        invariant
            k <= slice.len(),
            last_ws_index(slice@) == last_ws_index(slice@.take(k as int)),
        decreases k,
    {
        assert(slice@.take(k as int).drop_last() =~= slice@.take(k - 1));
        k = k - 1;
    }
    let mut out: Vec<char>;
    if k == 0 {
        assert(slice@.take(0) =~= Seq::<char>::empty());
        out = trim_end_chars(slice.as_slice());
    } else {
        assert(slice@.take(k as int).last() == slice@[k - 1]);
        assert(slice@.take(k as int).drop_last() =~= slice@.take(k - 1));
        if utf8_len_exceeds(slice.as_slice(), k - 1, 20) {
            out = trim_end_chars(slice.as_slice());
        } else {
            let head = sub_chars(slice.as_slice(), 0, k - 1);
            assert(head@ =~= slice@.take(k - 1));
            out = trim_end_chars(head.as_slice());
        }
    }
    out.push('\u{2026}');
    out
}

/// The cap law: a string that fits is unchanged; a longer one is cut to at
/// most `max` characters plus a trailing ellipsis.
pub proof fn lemma_cap_chars_bound(s: Seq<char>, max: nat)
    ensures
        s.len() <= max ==> cap_chars_spec(s, max) == s,
        s.len() > max ==> cap_chars_spec(s, max).len() <= max + 1 && cap_chars_spec(s, max).last()
            == '\u{2026}',
        cap_chars_spec(s, max).len() <= max + 1,
{
    if s.len() > max {
        let slice = s.take(max as int);
        lemma_trim_end_prefix(slice);
        match last_ws_index(slice) {
            Some(k) => {
                lemma_last_ws_index_bound(slice);
                lemma_trim_end_prefix(slice.take(k));
            },
            None => {},
        }
    }
}

proof fn lemma_last_ws_index_bound(s: Seq<char>)
    ensures
        last_ws_index(s) matches Some(k) ==> 0 <= k < s.len(),
    decreases s.len(),
{
    if s.len() > 0 && !is_ws(s.last()) {
        lemma_last_ws_index_bound(s.drop_last());
    }
}

/// Whether the raw activity is absent or blank (the `Waiting` state).
pub open spec fn is_waiting(raw: Option<Seq<char>>) -> bool {
    match raw {
        None => true,
        Some(r) => trim_seq(r).len() == 0,
    }
}

/// Convert a raw `current_activity` string into
/// `(status_chip, detail, detail_full)`.
///
/// `detail_full` is the unmodified original (empty when `raw` is `None`);
/// an absent or blank input is `Waiting` with an empty detail; otherwise the
/// chip classifies the raw string and the detail is the cleaned string capped
/// at [`DETAIL_MAX_CHARS`] characters.
pub fn render_status_and_detail(raw: Option<&str>) -> (r: (StatusChip, String, String))
    ensures
        r.2@ == match raw {
            Some(x) => x@,
            None => Seq::<char>::empty(),
        },
        is_waiting(
            match raw {
                Some(x) => Some(x@),
                None => None,
            },
        ) ==> r.0 == StatusChip::Waiting && r.1@ == Seq::<char>::empty(),
        !is_waiting(
            match raw {
                Some(x) => Some(x@),
                None => None,
            },
        ) ==> r.0 == classify_spec(r.2@) && r.1@ == cap_chars_spec(
            clean_detail_spec(r.2@),
            DETAIL_MAX_CHARS as nat,
        ),
        r.1@.len() <= DETAIL_MAX_CHARS + 1,
        forall|i: int| 0 <= i < 7 ==> !contains_seq(r.1@, #[trigger] noise_word(i)),
        single_line(r.1@),
{
    let raw_owned: String = match raw {
        Some(x) => x.to_owned(),
        None => String::new(),
    };
    let cs = to_chars(raw_owned.as_str());
    let trimmed = trim_chars(cs.as_slice());
    if raw.is_none() || trimmed.len() == 0 {
        proof {
            assert forall|i: int| 0 <= i < 7 implies !contains_seq(Seq::<char>::empty(), #[trigger] noise_word(i)) by {
                lemma_noise_word_len(i);
                if contains_seq(Seq::<char>::empty(), noise_word(i)) {
                    let j = choose|j: int| occurs_at(Seq::<char>::empty(), noise_word(i), j);
                }
            }
        }
        return (StatusChip::Waiting, String::new(), raw_owned);
    }
    let chip = classify(cs.as_slice());
    let detail = clean_detail(cs.as_slice());
    let capped = cap_chars(detail.as_slice(), DETAIL_MAX_CHARS);
    proof {
        lemma_cap_chars_bound(detail@, DETAIL_MAX_CHARS as nat);
        lemma_detail_is_noise_free(cs@, DETAIL_MAX_CHARS as nat);
        lemma_detail_is_single_line(cs@, DETAIL_MAX_CHARS as nat);
    }
    (chip, from_chars(capped.as_slice()), raw_owned)
}


// ---------------------------------------------------------------------------
// The noise law
// ---------------------------------------------------------------------------

proof fn lemma_occurs_shift(s: Seq<char>, p: Seq<char>, i: int)
    requires
        s.len() > 0,
        i >= 1,
        occurs_at(s, p, i),
    ensures
        occurs_at(s.skip(1), p, i - 1),
{
    assert(s.skip(1).subrange(i - 1, i - 1 + p.len()) =~= s.subrange(i, i + p.len()));
}

proof fn lemma_replace_len(s: Seq<char>, p: Seq<char>, r: Seq<char>)
    requires
        p.len() > 0,
        r.len() <= p.len(),
    ensures
        replace_seq(s, p, r).len() <= s.len(),
        !contains_seq(s, p) ==> replace_seq(s, p, r) == s,
        contains_seq(s, p) && r.len() < p.len() ==> replace_seq(s, p, r).len() < s.len(),
    decreases s.len(),
{
    if s.len() < p.len() {
        if contains_seq(s, p) {
            let i = choose|i: int| occurs_at(s, p, i);
            assert(false);
        }
    } else if s.take(p.len() as int) == p {
        lemma_replace_len(s.skip(p.len() as int), p, r);
        assert(occurs_at(s, p, 0)) by {
            assert(s.subrange(0, p.len() as int) =~= s.take(p.len() as int));
        }
    } else {
        lemma_replace_len(s.skip(1), p, r);
        if contains_seq(s, p) {
            let i = choose|i: int| occurs_at(s, p, i);
            if i == 0 {
                assert(s.subrange(0, p.len() as int) =~= s.take(p.len() as int));
                assert(false);
            }
            lemma_occurs_shift(s, p, i);
        } else {
            assert forall|j: int| !occurs_at(s.skip(1), p, j) by {
                if occurs_at(s.skip(1), p, j) {
                    assert(s.subrange(j + 1, j + 1 + p.len()) =~= s.skip(1).subrange(j, j + p.len()));
                    assert(occurs_at(s, p, j + 1));
                }
            }
            assert(seq![s[0]] + s.skip(1) =~= s);
        }
    }
}

proof fn lemma_noise_word_len(i: int)
    requires
        0 <= i < 7,
    ensures
        noise_word(i).len() >= 2,
{
    reveal_strlit("brain-error fallback");
    reveal_strlit("goal-action parse failed");
    reveal_strlit("spawn_engineer dispatched");
    reveal_strlit("continue_skipping");
    reveal_strlit("ooda-brain");
    reveal_strlit("brain:");
    reveal_strlit("Could not read Copilot config");
}

proof fn lemma_strip_noise_len(s: Seq<char>, k: int)
    requires
        0 <= k <= 7,
    ensures
        strip_noise_from(s, k).len() <= s.len(),
        (exists|i: int| k <= i < 7 && contains_seq(s, #[trigger] noise_word(i))) ==> strip_noise_from(s, k).len()
            < s.len(),
    decreases 7 - k,
{
    reveal_strlit(" ");
    if k < 7 {
        lemma_noise_word_len(k);
        let t = replace_seq(s, noise_word(k), " "@);
        lemma_replace_len(s, noise_word(k), " "@);
        lemma_strip_noise_len(t, k + 1);
        if !contains_seq(s, noise_word(k)) {
            assert(t == s);
            if exists|i: int| k <= i < 7 && contains_seq(s, #[trigger] noise_word(i)) {
                let i = choose|i: int| k <= i < 7 && contains_seq(s, #[trigger] noise_word(i));
                assert(i != k);
                assert(k + 1 <= i < 7 && contains_seq(t, noise_word(i)));
            }
        }
    }
}

proof fn lemma_words_fold_len(s: Seq<char>, out: Seq<char>, pending: bool)
    ensures
        words_fold(s, out, pending).len() <= out.len() + s.len() + if pending {
            1int
        } else {
            0int
        },
    decreases s.len(),
{
    if s.len() > 0 {
        if is_ws(s[0]) {
            lemma_words_fold_len(s.skip(1), out, out.len() > 0);
        } else if pending {
            lemma_words_fold_len(s.skip(1), out.push(' ').push(s[0]), false);
        } else {
            lemma_words_fold_len(s.skip(1), out.push(s[0]), false);
        }
    }
}

proof fn lemma_scrub_clean(s: Seq<char>)
    ensures
        !has_noise(scrub(s)),
    decreases s.len(),
{
    if has_noise(s) {
        lemma_strip_noise_len(s, 0);
        let st = strip_noise_from(s, 0);
        lemma_words_fold_len(st, Seq::empty(), false);
        let t = join_words_spec(st);
        assert(t.len() < s.len());
        lemma_scrub_clean(t);
    }
}

proof fn lemma_prefix_keeps_clean(s: Seq<char>, n: int)
    requires
        0 <= n <= s.len(),
        !has_noise(s),
    ensures
        !has_noise(s.take(n)),
{
    assert forall|i: int| 0 <= i < 7 implies !contains_seq(s.take(n), #[trigger] noise_word(i)) by {
        if contains_seq(s.take(n), noise_word(i)) {
            let j = choose|j: int| occurs_at(s.take(n), noise_word(i), j);
            let p = noise_word(i);
            assert(s.take(n).subrange(j, j + p.len()) =~= s.subrange(j, j + p.len()));
            assert(occurs_at(s, p, j));
            assert(contains_seq(s, p));
        }
    }
}

proof fn lemma_ellipsis_keeps_clean(s: Seq<char>)
    requires
        !has_noise(s),
    ensures
        !has_noise(s + seq!['\u{2026}']),
{
    reveal_strlit("brain-error fallback");
    reveal_strlit("goal-action parse failed");
    reveal_strlit("spawn_engineer dispatched");
    reveal_strlit("continue_skipping");
    reveal_strlit("ooda-brain");
    reveal_strlit("brain:");
    reveal_strlit("Could not read Copilot config");
    let t = s + seq!['\u{2026}'];
    assert forall|i: int| 0 <= i < 7 implies !contains_seq(t, #[trigger] noise_word(i)) by {
        let p = noise_word(i);
        if contains_seq(t, p) {
            let j = choose|j: int| occurs_at(t, p, j);
            if j + p.len() <= s.len() {
                assert(t.subrange(j, j + p.len()) =~= s.subrange(j, j + p.len()));
                assert(occurs_at(s, p, j));
                assert(contains_seq(s, p));
            } else {
                assert(t.subrange(j, j + p.len())[p.len() - 1] == t[s.len() as int]);
                assert(p[p.len() - 1] != '\u{2026}');
            }
        }
    }
}

/// Law: a rendered detail never shows brain vocabulary or the launcher
/// warning, however the raw text was built, and also once capped.
pub proof fn lemma_detail_is_noise_free(raw: Seq<char>, max: nat)
    ensures
        forall|i: int| 0 <= i < 7 ==> !contains_seq(clean_detail_spec(raw), #[trigger] noise_word(i)),
        forall|i: int|
            0 <= i < 7 ==> !contains_seq(cap_chars_spec(clean_detail_spec(raw), max), #[trigger] noise_word(i)),
{
    let d = clean_detail_spec(raw);
    lemma_scrub_clean(
        join_words_spec(
            collapse_punctuation_spec(strip_vocabulary_spec(drop_noisy_parens_spec(clean_lines_spec(raw)))),
        ),
    );
    if d.len() > max {
        let slice = d.take(max as int);
        lemma_prefix_keeps_clean(d, max as int);
        lemma_trim_end_prefix(slice);
        lemma_prefix_keeps_clean(slice, trim_end_seq(slice).len() as int);
        lemma_ellipsis_keeps_clean(trim_end_seq(slice));
        match last_ws_index(slice) {
            Some(k) => {
                lemma_last_ws_index_bound(slice);
                lemma_prefix_keeps_clean(slice, k);
                let h = slice.take(k);
                lemma_trim_end_prefix(h);
                lemma_prefix_keeps_clean(h, trim_end_seq(h).len() as int);
                lemma_ellipsis_keeps_clean(trim_end_seq(h));
            },
            None => {},
        }
    }
}


/// `s` holds no line break.
pub open spec fn single_line(s: Seq<char>) -> bool {
    forall|i: int| 0 <= i < s.len() ==> #[trigger] s[i] != '\n'
}

proof fn lemma_words_fold_single_line(s: Seq<char>, out: Seq<char>, pending: bool)
    requires
        single_line(out),
    ensures
        single_line(words_fold(s, out, pending)),
    decreases s.len(),
{
    if s.len() > 0 {
        if is_ws(s[0]) {
            lemma_words_fold_single_line(s.skip(1), out, out.len() > 0);
        } else if pending {
            let o = out.push(' ').push(s[0]);
            assert(s[0] != '\n');
            assert forall|i: int| 0 <= i < o.len() implies #[trigger] o[i] != '\n' by {
                if i < out.len() {
                    assert(o[i] == out[i]);
                }
            }
            lemma_words_fold_single_line(s.skip(1), o, false);
        } else {
            let o = out.push(s[0]);
            assert(s[0] != '\n');
            assert forall|i: int| 0 <= i < o.len() implies #[trigger] o[i] != '\n' by {
                if i < out.len() {
                    assert(o[i] == out[i]);
                }
            }
            lemma_words_fold_single_line(s.skip(1), o, false);
        }
    }
}

proof fn lemma_join_words_single_line(s: Seq<char>)
    ensures
        single_line(join_words_spec(s)),
{
    lemma_words_fold_single_line(s, Seq::empty(), false);
}

proof fn lemma_scrub_single_line(s: Seq<char>)
    requires
        single_line(s),
    ensures
        single_line(scrub(s)),
    decreases s.len(),
{
    if has_noise(s) {
        let st = strip_noise_from(s, 0);
        let t = join_words_spec(st);
        lemma_join_words_single_line(st);
        lemma_strip_noise_len(s, 0);
        lemma_words_fold_len(st, Seq::empty(), false);
        if t.len() < s.len() {
            lemma_scrub_single_line(t);
        }
    }
}

proof fn lemma_prefix_single_line(s: Seq<char>, n: int)
    requires
        0 <= n <= s.len(),
        single_line(s),
    ensures
        single_line(s.take(n)),
{
    assert forall|i: int| 0 <= i < s.take(n).len() implies #[trigger] s.take(n)[i] != '\n' by {
        assert(s.take(n)[i] == s[i]);
    }
}

proof fn lemma_ellipsis_single_line(s: Seq<char>)
    requires
        single_line(s),
    ensures
        single_line(s + seq!['\u{2026}']),
{
    let t = s + seq!['\u{2026}'];
    assert forall|i: int| 0 <= i < t.len() implies #[trigger] t[i] != '\n' by {
        if i < s.len() {
            assert(t[i] == s[i]);
        }
    }
}

/// Law: a rendered detail is one line, however the raw text was built,
/// and also once capped.
pub proof fn lemma_detail_is_single_line(raw: Seq<char>, max: nat)
    ensures
        single_line(clean_detail_spec(raw)),
        single_line(cap_chars_spec(clean_detail_spec(raw), max)),
{
    let d = clean_detail_spec(raw);
    let j = collapse_punctuation_spec(strip_vocabulary_spec(drop_noisy_parens_spec(clean_lines_spec(raw))));
    lemma_join_words_single_line(j);
    lemma_scrub_single_line(join_words_spec(j));
    if d.len() > max {
        let slice = d.take(max as int);
        lemma_prefix_single_line(d, max as int);
        lemma_trim_end_prefix(slice);
        lemma_prefix_single_line(slice, trim_end_seq(slice).len() as int);
        lemma_ellipsis_single_line(trim_end_seq(slice));
        match last_ws_index(slice) {
            Some(k) => {
                lemma_last_ws_index_bound(slice);
                lemma_prefix_single_line(slice, k);
                let h = slice.take(k);
                lemma_trim_end_prefix(h);
                lemma_prefix_single_line(h, trim_end_seq(h).len() as int);
                lemma_ellipsis_single_line(trim_end_seq(h));
            },
            None => {},
        }
    }
}

} // verus!
