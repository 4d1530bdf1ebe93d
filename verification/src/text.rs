//! Character-sequence primitives shared by the dashboard's text handling.
//!
//! Every string is reasoned about through its view, a `Seq<char>`. The spec
//! functions here define the classical string operations (whitespace trimming,
//! pattern search and replacement) directly over those sequences.

use vstd::prelude::*;
use vstd::string::*;
use vstd::std_specs::iter::IteratorSpec;

verus! {

/// Unicode `White_Space` property, as `char::is_whitespace` defines it.
pub open spec fn is_ws(c: char) -> bool {
    let u = c as u32;
    ||| (0x09 <= u && u <= 0x0d)
    ||| u == 0x20
    ||| u == 0x85
    ||| u == 0xa0
    ||| u == 0x1680
    ||| (0x2000 <= u && u <= 0x200a)
    ||| u == 0x2028
    ||| u == 0x2029
    ||| u == 0x202f
    ||| u == 0x205f
    ||| u == 0x3000
}

/// Whether `c` is whitespace (Unicode `White_Space`).
pub fn char_is_whitespace(c: char) -> (b: bool)
    ensures
        b == is_ws(c),
{
    let u = c as u32;
    (0x09 <= u && u <= 0x0d) || u == 0x20 || u == 0x85 || u == 0xa0 || u == 0x1680 || (0x2000
        <= u && u <= 0x200a) || u == 0x2028 || u == 0x2029 || u == 0x202f || u == 0x205f || u
        == 0x3000
}

/// The characters of `s`, in order.
pub fn to_chars(s: &str) -> (v: Vec<char>)
    ensures
        v@ == s@,
{
    broadcast use vstd::string::group_string_axioms;
    let mut v: Vec<char> = Vec::new();
    let mut it = s.chars();
    loop
        invariant
            v@ + it.remaining() == s@,
        ensures
            v@ == s@,
        decreases s@.len() - v@.len(),
    {
        let ghost before = it.remaining();
        match it.next() {
            Some(c) => {
                assert(v@.push(c) + it.remaining() == v@ + before);
                v.push(c);
            },
            None => {
                assert(it.remaining().len() == 0);
                assert(v@ + it.remaining() =~= v@);
                break ;
            },
        }
    }
    v
}

/// Appends one character: `String::push`.
#[verifier::external_body]
pub(crate) fn push_char(s: &mut String, c: char)
    ensures
        final(s)@ == old(s)@.push(c),
{
    s.push(c);
}

/// The string whose characters are `v`.
pub fn from_chars(v: &[char]) -> (s: String)
    ensures
        s@ == v@,
{
    let mut s = String::new();
    let mut i: usize = 0;
    while i < v.len()
        invariant
            i <= v.len(),
            s@ == v@.take(i as int),
        decreases v.len() - i,
    {
        push_char(&mut s, v[i]);
        assert(v@.take(i + 1) == v@.take(i as int).push(v@[i as int]));
        i = i + 1;
    }
    assert(v@.take(v.len() as int) == v@);
    s
}


/// Appends the characters of `other` to `out`.
pub fn push_all(out: &mut Vec<char>, other: &[char])
    ensures
        final(out)@ == old(out)@ + other@,
{
    let mut i: usize = 0;
    while i < other.len()
        invariant
            i <= other.len(),
            out@ == old(out)@ + other@.take(i as int),
        decreases other.len() - i,
    {
        out.push(other[i]);
        assert(other@.take(i + 1) == other@.take(i as int).push(other@[i as int]));
        i = i + 1;
    }
    assert(other@.take(other.len() as int) == other@);
}

/// Appends the characters of the string `other` to `out`.
pub fn push_str(out: &mut Vec<char>, other: &str)
    ensures
        final(out)@ == old(out)@ + other@,
{
    let cs = to_chars(other);
    push_all(out, cs.as_slice());
}

/// The characters `s[a..b]`.
pub fn sub_chars(s: &[char], a: usize, b: usize) -> (v: Vec<char>)
    requires
        a <= b <= s.len(),
    ensures
        v@ == s@.subrange(a as int, b as int),
{
    let mut v: Vec<char> = Vec::new();
    let mut i: usize = a;
    while i < b
        invariant
            a <= i <= b <= s.len(),
            v@ == s@.subrange(a as int, i as int),
        decreases b - i,
    {
        v.push(s[i]);
        assert(s@.subrange(a as int, i + 1) == s@.subrange(a as int, i as int).push(s@[i as int]));
        i = i + 1;
    }
    v
}

/// Whether two character sequences are equal.
pub fn chars_eq(a: &[char], b: &[char]) -> (r: bool)
    ensures
        r == (a@ == b@),
{
    if a.len() != b.len() {
        return false;
    }
    let mut i: usize = 0;
    while i < a.len()
        invariant
            a.len() == b.len(),
            i <= a.len(),
            forall|j: int| 0 <= j < i ==> a@[j] == b@[j],
        decreases a.len() - i,
    {
        if a[i] != b[i] {
            return false;
        }
        i = i + 1;
    }
    assert(a@ =~= b@);
    true
}

// ---------------------------------------------------------------------------
// Pattern occurrence, search and replacement
// ---------------------------------------------------------------------------

/// `p` occurs in `s` starting at index `i`.
pub open spec fn occurs_at(s: Seq<char>, p: Seq<char>, i: int) -> bool {
    0 <= i && i + p.len() <= s.len() && s.subrange(i, i + p.len()) == p
}

/// `p` is a substring of `s`.
pub open spec fn contains_seq(s: Seq<char>, p: Seq<char>) -> bool {
    exists|i: int| occurs_at(s, p, i)
}

/// Whether `p` occurs in `s` at index `i`.
pub fn matches_at(s: &[char], p: &[char], i: usize) -> (b: bool)
    ensures
        b == occurs_at(s@, p@, i as int),
{
    if i > s.len() || p.len() > s.len() - i {
        return false;
    }
    let mut k: usize = 0;
    while k < p.len()
        invariant
            i + p.len() <= s.len(),
            k <= p.len(),
            forall|j: int| 0 <= j < k ==> s@[i + j] == p@[j],
        decreases p.len() - k,
    {
        if s[i + k] != p[k] {
            assert(s@.subrange(i as int, i + p.len())[k as int] != p@[k as int]);
            return false;
        }
        k = k + 1;
    }
    assert(s@.subrange(i as int, i + p.len()) =~= p@);
    true
}

/// The first occurrence of `p` in `s` at or after index `from`.
pub fn find_from(s: &[char], p: &[char], from: usize) -> (r: Option<usize>)
    requires
        from <= s.len(),
    ensures
        match r {
            Some(i) => from <= i && occurs_at(s@, p@, i as int) && forall|j: int|
                from <= j < i ==> !occurs_at(s@, p@, j),
            None => forall|j: int| from <= j ==> !occurs_at(s@, p@, j),
        },
{
    let mut i: usize = from;
    while i < s.len()
        invariant
            from <= i <= s.len(),
            forall|j: int| from <= j < i ==> !occurs_at(s@, p@, j),
        decreases s.len() - i,
    {
        if matches_at(s, p, i) {
            return Some(i);
        }
        i = i + 1;
    }
    if matches_at(s, p, i) {
        return Some(i);
    }
    assert forall|j: int| from <= j implies !occurs_at(s@, p@, j) by {
        if j > s.len() {
        }
    }
    None
}

/// Whether `p` is a substring of `s`.
pub fn contains_chars(s: &[char], p: &[char]) -> (b: bool)
    ensures
        b == contains_seq(s@, p@),
{
    match find_from(s, p, 0) {
        Some(i) => true,
        None => {
            assert forall|j: int| !occurs_at(s@, p@, j) by {
                if j >= 0 {
                }
            }
            false
        },
    }
}

/// Whether the string `p` is a substring of the string `s`.
pub fn str_contains(s: &str, p: &str) -> (b: bool)
    ensures
        b == contains_seq(s@, p@),
{
    let sc = to_chars(s);
    let pc = to_chars(p);
    contains_chars(sc.as_slice(), pc.as_slice())
}

/// Index of the first occurrence of `p` in `s`.
pub open spec fn first_occurrence(s: Seq<char>, p: Seq<char>) -> Option<int>
    decreases s.len(),
{
    if occurs_at(s, p, 0) {
        Some(0)
    } else if s.len() == 0 {
        None
    } else {
        match first_occurrence(s.skip(1), p) {
            Some(i) => Some(i + 1),
            None => None,
        }
    }
}

proof fn lemma_occurs_skip(s: Seq<char>, p: Seq<char>, j: int)
    requires
        s.len() > 0,
        j >= 0,
    ensures
        occurs_at(s.skip(1), p, j) == occurs_at(s, p, j + 1),
{
    if j + 1 + p.len() <= s.len() {
        assert(s.skip(1).subrange(j, j + p.len()) =~= s.subrange(j + 1, j + 1 + p.len()));
    }
}

/// The first occurrence is the least index where `p` occurs.
pub proof fn lemma_first_occurrence(s: Seq<char>, p: Seq<char>, i: int)
    requires
        occurs_at(s, p, i),
        forall|j: int| 0 <= j < i ==> !occurs_at(s, p, j),
    ensures
        first_occurrence(s, p) == Some(i),
    decreases s.len(),
{
    if i > 0 {
        lemma_occurs_skip(s, p, i - 1);
        assert forall|j: int| 0 <= j < i - 1 implies !occurs_at(s.skip(1), p, j) by {
            lemma_occurs_skip(s, p, j);
        }
        lemma_first_occurrence(s.skip(1), p, i - 1);
    }
}

/// Without any occurrence there is no first one.
pub proof fn lemma_no_occurrence(s: Seq<char>, p: Seq<char>)
    requires
        forall|j: int| !occurs_at(s, p, j),
    ensures
        first_occurrence(s, p) is None,
    decreases s.len(),
{
    if s.len() > 0 {
        assert forall|j: int| !occurs_at(s.skip(1), p, j) by {
            if j >= 0 {
                lemma_occurs_skip(s, p, j);
            }
        }
        lemma_no_occurrence(s.skip(1), p);
    }
}

/// The index of the first occurrence of `p` in `s` (`str::find`).
pub fn find_first(s: &[char], p: &[char]) -> (r: Option<usize>)
    ensures
        match r {
            Some(i) => first_occurrence(s@, p@) == Some(i as int) && occurs_at(s@, p@, i as int),
            None => first_occurrence(s@, p@) is None,
        },
{
    match find_from(s, p, 0) {
        Some(i) => {
            proof {
                lemma_first_occurrence(s@, p@, i as int);
            }
            Some(i)
        },
        None => {
            proof {
                assert forall|j: int| !occurs_at(s@, p@, j) by {
                    if j >= 0 {
                    }
                }
                lemma_no_occurrence(s@, p@);
            }
            None
        },
    }
}

/// Every non-overlapping occurrence of `p` in `s`, scanning left to right,
/// replaced by `r` (the behaviour of `str::replace`).
pub open spec fn replace_seq(s: Seq<char>, p: Seq<char>, r: Seq<char>) -> Seq<char>
    decreases s.len(),
{
    if p.len() == 0 || s.len() < p.len() {
        s
    } else if s.take(p.len() as int) == p {
        r + replace_seq(s.skip(p.len() as int), p, r)
    } else {
        seq![s[0]] + replace_seq(s.skip(1), p, r)
    }
}

/// `s` with every non-overlapping occurrence of `p` replaced by `r`.
pub fn replace_chars(s: &[char], p: &[char], r: &[char]) -> (out: Vec<char>)
    requires
        p.len() > 0,
    ensures
        out@ == replace_seq(s@, p@, r@),
{
    let mut out: Vec<char> = Vec::new();
    let mut i: usize = 0;
    assert(s@.skip(0) =~= s@);
    assert(out@ + s@ =~= s@);
    while i < s.len()
        invariant
            i <= s.len(),
            p.len() > 0,
            replace_seq(s@, p@, r@) == out@ + replace_seq(s@.skip(i as int), p@, r@),
        decreases s.len() - i,
    {
        let ghost rest = s@.skip(i as int);
        if matches_at(s, p, i) {
            assert(rest.take(p.len() as int) =~= s@.subrange(i as int, i + p.len()));
            assert(rest.skip(p.len() as int) =~= s@.skip(i + p.len()));
            let ghost before = out@;
            push_all(&mut out, r);
            assert(out@ + replace_seq(s@.skip(i + p.len()), p@, r@) == before + replace_seq(rest, p@, r@));
            i = i + p.len();
        } else {
            proof {
                if rest.len() >= p@.len() {
                    assert(rest.take(p.len() as int) =~= s@.subrange(i as int, i + p.len()));
                }
            }
            assert(rest.skip(1) =~= s@.skip(i + 1));
            assert(rest[0] == s@[i as int]);
            let ghost before = out@;
            out.push(s[i]);
            assert(out@ + replace_seq(s@.skip(i + 1), p@, r@) =~= before + (seq![rest[0]] + replace_seq(rest.skip(1), p@, r@)));
            i = i + 1;
        }
    }
    assert(s@.skip(i as int) =~= Seq::<char>::empty());
    assert(out@ + Seq::<char>::empty() =~= out@);
    out
}

/// `s` with every occurrence of `p` replaced by `r` (`str::replace`).
pub fn str_replace(s: &[char], p: &str, r: &str) -> (out: Vec<char>)
    requires
        p@.len() > 0,
    ensures
        out@ == replace_seq(s@, p@, r@),
{
    let pc = to_chars(p);
    let rc = to_chars(r);
    replace_chars(s, pc.as_slice(), rc.as_slice())
}

// ---------------------------------------------------------------------------
// Whitespace trimming
// ---------------------------------------------------------------------------

/// `s` without its trailing whitespace.
pub open spec fn trim_end_seq(s: Seq<char>) -> Seq<char>
    decreases s.len(),
{
    if s.len() > 0 && is_ws(s.last()) {
        trim_end_seq(s.drop_last())
    } else {
        s
    }
}

/// Trimming trailing whitespace keeps a prefix.
pub proof fn lemma_trim_end_prefix(s: Seq<char>)
    ensures
        trim_end_seq(s).len() <= s.len(),
        trim_end_seq(s) == s.take(trim_end_seq(s).len() as int),
    decreases s.len(),
{
    if s.len() > 0 && is_ws(s.last()) {
        lemma_trim_end_prefix(s.drop_last());
        assert(s.drop_last().take(trim_end_seq(s).len() as int) =~= s.take(trim_end_seq(s).len() as int));
    } else {
        assert(s.take(s.len() as int) =~= s);
    }
}

/// `s` without its leading whitespace.
pub open spec fn trim_start_seq(s: Seq<char>) -> Seq<char>
    decreases s.len(),
{
    if s.len() > 0 && is_ws(s[0]) {
        trim_start_seq(s.drop_first())
    } else {
        s
    }
}

/// `s` without leading and trailing whitespace (`str::trim`).
pub open spec fn trim_seq(s: Seq<char>) -> Seq<char> {
    trim_start_seq(trim_end_seq(s))
}

/// `s` without its trailing whitespace.
pub fn trim_end_chars(s: &[char]) -> (v: Vec<char>)
    ensures
        v@ == trim_end_seq(s@),
{
    let mut n: usize = s.len();
    assert(s@.take(n as int) =~= s@);
    while n > 0 && char_is_whitespace(s[n - 1])
        invariant
            n <= s.len(),
            trim_end_seq(s@) == trim_end_seq(s@.take(n as int)),
        decreases n,
    {
        assert(s@.take(n as int).drop_last() =~= s@.take(n - 1));
        n = n - 1;
    }
    assert(s@.take(n as int) =~= s@.subrange(0, n as int));
    sub_chars(s, 0, n)
}

/// `s` without its leading whitespace.
pub fn trim_start_chars(s: &[char]) -> (v: Vec<char>)
    ensures
        v@ == trim_start_seq(s@),
{
    let mut n: usize = 0;
    assert(s@.skip(0) =~= s@);
    while n < s.len() && char_is_whitespace(s[n])
        invariant
            n <= s.len(),
            trim_start_seq(s@) == trim_start_seq(s@.skip(n as int)),
        decreases s.len() - n,
    {
        assert(s@.skip(n as int).drop_first() =~= s@.skip(n + 1));
        n = n + 1;
    }
    assert(s@.skip(n as int) =~= s@.subrange(n as int, s.len() as int));
    sub_chars(s, n, s.len())
}

/// `s` without leading and trailing whitespace.
pub fn trim_chars(s: &[char]) -> (v: Vec<char>)
    ensures
        v@ == trim_seq(s@),
{
    let e = trim_end_chars(s);
    trim_start_chars(e.as_slice())
}


// ---------------------------------------------------------------------------
// Character search
// ---------------------------------------------------------------------------

/// Index of the first `c` in `s`, or `s.len()` when `c` does not occur.
pub open spec fn first_index(s: Seq<char>, c: char) -> int
    decreases s.len(),
{
    if s.len() == 0 {
        0
    } else if s[0] == c {
        0
    } else {
        1 + first_index(s.skip(1), c)
    }
}

/// `first_index` is the position of the first `c`, or the length.
pub proof fn lemma_first_index(s: Seq<char>, c: char, k: int)
    requires
        0 <= k <= s.len(),
        forall|j: int| 0 <= j < k ==> s[j] != c,
        k == s.len() || s[k] == c,
    ensures
        first_index(s, c) == k,
    decreases k,
{
    if k > 0 {
        assert forall|j: int| 0 <= j < k - 1 implies s.skip(1)[j] != c by {
            assert(s.skip(1)[j] == s[j + 1]);
        }
        if k < s.len() {
            assert(s.skip(1)[k - 1] == s[k]);
        }
        lemma_first_index(s.skip(1), c, k - 1);
    }
}

/// `first_index` never exceeds the length.
pub proof fn lemma_first_index_bound(s: Seq<char>, c: char)
    ensures
        0 <= first_index(s, c) <= s.len(),
    decreases s.len(),
{
    if s.len() > 0 && s[0] != c {
        lemma_first_index_bound(s.skip(1), c);
    }
}

/// Index of the first `c` in `s[from..]` (absolute), or `s.len()`.
pub fn index_of_from(s: &[char], c: char, from: usize) -> (k: usize)
    requires
        from <= s.len(),
    ensures
        from <= k <= s.len(),
        k == from + first_index(s@.skip(from as int), c),
{
    let mut k: usize = from;
    while k < s.len() && s[k] != c
        invariant
            from <= k <= s.len(),
            forall|j: int| from <= j < k ==> s@[j] != c,
        decreases s.len() - k,
    {
        k = k + 1;
    }
    proof {
        let t = s@.skip(from as int);
        assert forall|j: int| 0 <= j < k - from implies t[j] != c by {
            assert(t[j] == s@[from + j]);
        }
        if k < s.len() {
            assert(t[k - from] == s@[k as int]);
        }
        lemma_first_index(t, c, k - from);
    }
    k
}


// ---------------------------------------------------------------------------
// UTF-8 lengths
// ---------------------------------------------------------------------------

/// Bytes `c` occupies in UTF-8.
pub open spec fn utf8_width(c: char) -> nat {
    let u = c as u32;
    if u < 0x80 {
        1
    } else if u < 0x800 {
        2
    } else if u < 0x10000 {
        3
    } else {
        4
    }
}

/// Bytes `s` occupies in UTF-8.
pub open spec fn utf8_len(s: Seq<char>) -> nat
    decreases s.len(),
{
    if s.len() == 0 {
        0
    } else {
        utf8_width(s[0]) + utf8_len(s.skip(1))
    }
}

/// Bytes `c` occupies in UTF-8.
pub fn char_utf8_width(c: char) -> (w: usize)
    ensures
        w == utf8_width(c),
{
    let u = c as u32;
    if u < 0x80 {
        1
    } else if u < 0x800 {
        2
    } else if u < 0x10000 {
        3
    } else {
        4
    }
}

/// Whether the UTF-8 length of `s[from..]` exceeds `limit` bytes.
pub fn utf8_len_exceeds(s: &[char], from: usize, limit: usize) -> (b: bool)
    requires
        from <= s.len(),
        limit < usize::MAX - 4,
    ensures
        b == (utf8_len(s@.skip(from as int)) > limit),
{
    let mut acc: usize = 0;
    let mut j: usize = from;
    while j < s.len()
        invariant
            from <= j <= s.len(),
            acc <= limit,
            limit < usize::MAX - 4,
            utf8_len(s@.skip(from as int)) == acc + utf8_len(s@.skip(j as int)),
        decreases s.len() - j,
    {
        assert(s@.skip(j as int).skip(1) =~= s@.skip(j + 1));
        acc = acc + char_utf8_width(s[j]);
        j = j + 1;
        if acc > limit {
            return true;
        }
    }
    assert(s@.skip(j as int) =~= Seq::<char>::empty());
    false
}


// ---------------------------------------------------------------------------
// ASCII case
// ---------------------------------------------------------------------------

/// `c` with ASCII `A`-`Z` mapped to `a`-`z`.
pub open spec fn ascii_lower(c: char) -> char {
    if 'A' <= c && c <= 'Z' {
        ((c as u32) + 32) as char
    } else {
        c
    }
}

/// `s` with every ASCII upper-case letter lowered (`to_ascii_lowercase`).
pub open spec fn ascii_lower_seq(s: Seq<char>) -> Seq<char> {
    s.map_values(|c: char| ascii_lower(c))
}

/// `c` with ASCII `A`-`Z` mapped to `a`-`z`.
pub fn char_ascii_lower(c: char) -> (r: char)
    ensures
        r == ascii_lower(c),
{
    if 'A' <= c && c <= 'Z' {
        let u = (c as u32) + 32;
        assert(u < 0xd800);
        char_from_u32_ascii(u)
    } else {
        c
    }
}

fn char_from_u32_ascii(u: u32) -> (c: char)
    requires
        u < 0x80,
    ensures
        c == u as char,
{
    let b: u8 = u as u8;
    b as char
}

/// The characters of `s` with ASCII letters lowered.
pub fn ascii_lower_chars(s: &[char]) -> (v: Vec<char>)
    ensures
        v@ == ascii_lower_seq(s@),
{
    let mut v: Vec<char> = Vec::new();
    let mut i: usize = 0;
    while i < s.len()
        invariant
            i <= s.len(),
            v@ == ascii_lower_seq(s@.take(i as int)),
        decreases s.len() - i,
    {
        v.push(char_ascii_lower(s[i]));
        assert(ascii_lower_seq(s@.take(i + 1)) =~= ascii_lower_seq(s@.take(i as int)).push(
            ascii_lower(s@[i as int]),
        ));
        i = i + 1;
    }
    assert(s@.take(s.len() as int) =~= s@);
    v
}


// ---------------------------------------------------------------------------
// Words
// ---------------------------------------------------------------------------

/// The whitespace-separated words of `s`, scanning left to right with the
/// word in progress `cur` and the finished words `acc`.
pub open spec fn words_from(s: Seq<char>, cur: Seq<char>, acc: Seq<Seq<char>>) -> Seq<Seq<char>>
    decreases s.len(),
{
    if s.len() == 0 {
        if cur.len() > 0 {
            acc.push(cur)
        } else {
            acc
        }
    } else if is_ws(s[0]) {
        words_from(s.skip(1), Seq::empty(), if cur.len() > 0 { acc.push(cur) } else { acc })
    } else {
        words_from(s.skip(1), cur.push(s[0]), acc)
    }
}

/// The words of `s` (`split_whitespace`).
pub open spec fn words(s: Seq<char>) -> Seq<Seq<char>> {
    words_from(s, Seq::empty(), Seq::empty())
}

/// The words of `s`, in order.
pub fn split_words(s: &[char]) -> (out: Vec<Vec<char>>)
    ensures
        out.deep_view() == words(s@),
{
    let mut out: Vec<Vec<char>> = Vec::new();
    let mut cur: Vec<char> = Vec::new();
    let mut i: usize = 0;
    assert(s@.skip(0) =~= s@);
    assert(out.deep_view() =~= Seq::<Seq<char>>::empty());
    assert(cur@ =~= Seq::<char>::empty());
    while i < s.len()
        invariant
            i <= s.len(),
            words(s@) == words_from(s@.skip(i as int), cur@, out.deep_view()),
        decreases s.len() - i,
    {
        let ghost rest = s@.skip(i as int);
        assert(rest[0] == s@[i as int]);
        assert(rest.skip(1) =~= s@.skip(i + 1));
        let c = s[i];
        if char_is_whitespace(c) {
            if cur.len() > 0 {
                let ghost before = out.deep_view();
                let w = cur;
                let ghost wv = w@;
                out.push(w);
                assert(out.deep_view()[before.len() as int] =~= wv);
                assert(out.deep_view() =~= before.push(wv));
                cur = Vec::new();
            }
            assert(cur@ =~= Seq::<char>::empty());
        } else {
            cur.push(c);
        }
        i = i + 1;
    }
    assert(s@.skip(i as int) =~= Seq::<char>::empty());
    if cur.len() > 0 {
        let ghost before = out.deep_view();
        let ghost wv = cur@;
        out.push(cur);
        assert(out.deep_view()[before.len() as int] =~= wv);
        assert(out.deep_view() =~= before.push(wv));
    }
    out
}

/// `ws` joined with single spaces.
pub open spec fn join_spaced(ws: Seq<Seq<char>>) -> Seq<char>
    decreases ws.len(),
{
    if ws.len() == 0 {
        Seq::empty()
    } else if ws.len() == 1 {
        ws[0]
    } else {
        join_spaced(ws.drop_last()) + seq![' '] + ws.last()
    }
}

/// The first `n` entries of `ws` joined with single spaces.
pub fn join_first_spaced(ws: &Vec<Vec<char>>, n: usize) -> (out: Vec<char>)
    requires
        n <= ws.len(),
    ensures
        out@ == join_spaced(ws.deep_view().take(n as int)),
{
    let mut out: Vec<char> = Vec::new();
    let mut i: usize = 0;
    while i < n
        invariant
            i <= n <= ws.len(),
            out@ == join_spaced(ws.deep_view().take(i as int)),
        decreases n - i,
    {
        let ghost t = ws.deep_view().take(i + 1);
        assert(t.drop_last() =~= ws.deep_view().take(i as int));
        assert(t.last() =~= ws[i as int]@);
        if i > 0 {
            out.push(' ');
        }
        push_all(&mut out, ws[i].as_slice());
        if i == 0 {
            assert(out@ =~= t[0]);
        } else {
            assert(out@ =~= join_spaced(t.drop_last()) + seq![' '] + t.last());
        }
        i = i + 1;
    }
    out
}

/// A string occupies at least one byte per character.
pub proof fn lemma_utf8_len_at_least_len(s: Seq<char>)
    ensures
        utf8_len(s) >= s.len(),
    decreases s.len(),
{
    if s.len() > 0 {
        lemma_utf8_len_at_least_len(s.skip(1));
    }
}

/// The UTF-8 length of `s.push(c)`.
pub proof fn lemma_utf8_len_push(s: Seq<char>, c: char)
    ensures
        utf8_len(s.push(c)) == utf8_len(s) + utf8_width(c),
    decreases s.len(),
{
    if s.len() == 0 {
        assert(s.push(c)[0] == c);
        assert(s.push(c).skip(1) =~= Seq::<char>::empty());
        assert(utf8_len(Seq::<char>::empty()) == 0);
        assert(utf8_len(s.push(c)) == utf8_width(c) + utf8_len(s.push(c).skip(1)));
    } else {
        assert(s.push(c)[0] == s[0]);
        assert(s.push(c).skip(1) =~= s.skip(1).push(c));
        lemma_utf8_len_push(s.skip(1), c);
        assert(utf8_len(s.push(c)) == utf8_width(s[0]) + utf8_len(s.push(c).skip(1)));
    }
}

/// The length of the longest prefix of `s` that fits in `limit` UTF-8 bytes.
pub open spec fn utf8_fit(s: Seq<char>, limit: nat) -> nat
    decreases s.len(),
{
    if s.len() == 0 || utf8_width(s[0]) > limit {
        0
    } else {
        1 + utf8_fit(s.skip(1), (limit - utf8_width(s[0])) as nat)
    }
}

/// The longest prefix of `s` that fits in `limit` UTF-8 bytes (a string
/// truncated at the last character boundary at or before byte `limit`).
pub open spec fn utf8_prefix(s: Seq<char>, limit: nat) -> Seq<char> {
    s.take(utf8_fit(s, limit) as int)
}

proof fn lemma_utf8_fit_bound(s: Seq<char>, limit: nat)
    ensures
        utf8_fit(s, limit) <= s.len(),
    decreases s.len(),
{
    if s.len() > 0 && utf8_width(s[0]) <= limit {
        lemma_utf8_fit_bound(s.skip(1), (limit - utf8_width(s[0])) as nat);
    }
}

/// `s` cut at the last character boundary at or before byte `limit`.
pub fn utf8_truncate(s: &[char], limit: usize) -> (out: Vec<char>)
    ensures
        out@ == utf8_prefix(s@, limit as nat),
{
    let mut out: Vec<char> = Vec::new();
    let mut left: usize = limit;
    let mut i: usize = 0;
    assert(s@.skip(0) =~= s@);
    loop
        invariant
            i <= s.len(),
            out@ == s@.take(i as int),
            utf8_fit(s@, limit as nat) == i + utf8_fit(s@.skip(i as int), left as nat),
        ensures
            out@ == utf8_prefix(s@, limit as nat),
        decreases s.len() - i,
    {
        if i >= s.len() {
            assert(s@.skip(i as int).len() == 0);
            break;
        }
        let w = char_utf8_width(s[i]);
        let ghost rest = s@.skip(i as int);
        assert(rest[0] == s@[i as int]);
        if w > left {
            break;
        }
        assert(rest.skip(1) =~= s@.skip(i + 1));
        out.push(s[i]);
        assert(s@.take(i + 1) =~= s@.take(i as int).push(s@[i as int]));
        left = left - w;
        i = i + 1;
    }
    out
}


// ---------------------------------------------------------------------------
// Prefixes and splitting on a separator
// ---------------------------------------------------------------------------

/// `s` begins with `p`.
pub open spec fn has_prefix(s: Seq<char>, p: Seq<char>) -> bool {
    p.len() <= s.len() && s.take(p.len() as int) == p
}

/// Whether `s` begins with `p`.
pub fn starts_with(s: &[char], p: &[char]) -> (b: bool)
    ensures
        b == has_prefix(s@, p@),
{
    let b = matches_at(s, p, 0);
    proof {
        if p@.len() <= s@.len() {
            assert(s@.take(p@.len() as int) =~= s@.subrange(0, p@.len() as int));
        }
    }
    b
}

/// The pieces of `s` between occurrences of `sep`, scanning left to right
/// with the piece in progress `cur` and the finished pieces `acc`.
pub open spec fn split_from(s: Seq<char>, sep: char, cur: Seq<char>, acc: Seq<Seq<char>>) -> Seq<Seq<char>>
    decreases s.len(),
{
    if s.len() == 0 {
        acc.push(cur)
    } else if s[0] == sep {
        split_from(s.skip(1), sep, Seq::empty(), acc.push(cur))
    } else {
        split_from(s.skip(1), sep, cur.push(s[0]), acc)
    }
}

/// The pieces of `s` between occurrences of `sep`, empty pieces included
/// (`str::split` on a character).
pub open spec fn split_on(s: Seq<char>, sep: char) -> Seq<Seq<char>> {
    split_from(s, sep, Seq::empty(), Seq::empty())
}

/// The pieces of `s` between occurrences of `sep`.
pub fn split_chars(s: &[char], sep: char) -> (out: Vec<Vec<char>>)
    ensures
        out.deep_view() == split_on(s@, sep),
{
    let mut out: Vec<Vec<char>> = Vec::new();
    let mut cur: Vec<char> = Vec::new();
    let mut i: usize = 0;
    assert(s@.skip(0) =~= s@);
    assert(out.deep_view() =~= Seq::<Seq<char>>::empty());
    assert(cur@ =~= Seq::<char>::empty());
    while i < s.len()
        invariant
            i <= s.len(),
            split_on(s@, sep) == split_from(s@.skip(i as int), sep, cur@, out.deep_view()),
        decreases s.len() - i,
    {
        let ghost rest = s@.skip(i as int);
        assert(rest[0] == s@[i as int]);
        assert(rest.skip(1) =~= s@.skip(i + 1));
        let c = s[i];
        if c == sep {
            let ghost before = out.deep_view();
            let ghost wv = cur@;
            out.push(cur);
            assert(out.deep_view()[before.len() as int] =~= wv);
            assert(out.deep_view() =~= before.push(wv));
            cur = Vec::new();
            assert(cur@ =~= Seq::<char>::empty());
        } else {
            cur.push(c);
        }
        i = i + 1;
    }
    assert(s@.skip(i as int) =~= Seq::<char>::empty());
    let ghost before = out.deep_view();
    let ghost wv = cur@;
    out.push(cur);
    assert(out.deep_view()[before.len() as int] =~= wv);
    assert(out.deep_view() =~= before.push(wv));
    out
}


// ---------------------------------------------------------------------------
// Paths
// ---------------------------------------------------------------------------

/// `name` joined onto the directory `dir` as one more path component.
pub open spec fn path_join(dir: Seq<char>, name: Seq<char>) -> Seq<char> {
    if dir.len() == 0 {
        name
    } else if dir.last() == '/' {
        dir + name
    } else {
        dir + seq!['/'] + name
    }
}

/// `name` joined onto the directory `dir` as one more path component
/// (`Path::join` with a relative component).
pub fn join_path(dir: &str, name: &[char]) -> (r: String)
    ensures
        r@ == path_join(dir@, name@),
{
    let mut out = to_chars(dir);
    if out.len() > 0 && out[out.len() - 1] != '/' {
        out.push('/');
    }
    push_all(&mut out, name);
    from_chars(out.as_slice())
}



// ---------------------------------------------------------------------------
// JSON string literals
// ---------------------------------------------------------------------------

/// The lowercase hex digit of `n` (below 16).
pub open spec fn lower_hex_digit(n: u32) -> char {
    if n < 10 {
        ('0' as u32 + n) as char
    } else {
        ('a' as u32 + n - 10) as char
    }
}

/// How a character is written inside a JSON string literal by
/// `serde_json`: `"` and `\` behind a backslash; backspace, tab, newline,
/// form feed and carriage return as `\b`, `\t`, `\n`, `\f`, `\r`; other
/// characters below U+0020 as `\u00` and two lowercase hex digits; every
/// other character as it is.
pub open spec fn json_escape_char(c: char) -> Seq<char> {
    if c == '"' {
        seq!['\\', '"']
    } else if c == '\\' {
        seq!['\\', '\\']
    } else if c == '\x08' {
        seq!['\\', 'b']
    } else if c == '\t' {
        seq!['\\', 't']
    } else if c == '\n' {
        seq!['\\', 'n']
    } else if c == '\x0c' {
        seq!['\\', 'f']
    } else if c == '\r' {
        seq!['\\', 'r']
    } else if (c as u32) < 0x20 {
        seq!['\\', 'u', '0', '0', lower_hex_digit((c as u32) / 16), lower_hex_digit((c as u32) % 16)]
    } else {
        seq![c]
    }
}

/// The escaped contents of a JSON string literal for `s`.
pub open spec fn json_escaped(s: Seq<char>) -> Seq<char>
    decreases s.len(),
{
    if s.len() == 0 {
        Seq::empty()
    } else {
        json_escaped(s.drop_last()) + json_escape_char(s.last())
    }
}

/// The JSON string literal `serde_json` writes for `s`: the escaped
/// contents in double quotes.
pub open spec fn json_string_literal(s: Seq<char>) -> Seq<char> {
    seq!['"'] + json_escaped(s) + seq!['"']
}

} // verus!
