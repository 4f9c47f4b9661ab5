//! Verified string utilities: character-wise equality, prefix and substring
//! tests, line trimming, and byte-order-mark removal.

use vstd::prelude::*;

verus! {

/// Whether a character is line whitespace as the serial protocol produces it
/// (space, tab, carriage return, line feed).
pub open spec fn is_line_space(c: char) -> bool {
    c == ' ' || c == '\t' || c == '\r' || c == '\n'
}

/// Index of the first character at or after `i` that is not line whitespace,
/// or the length of `s` if there is none.
pub open spec fn trim_from(s: Seq<char>, i: int) -> int
    decreases s.len() - i,
{
    if i < 0 || i >= s.len() {
        s.len() as int
    } else if is_line_space(s[i]) {
        trim_from(s, i + 1)
    } else {
        i
    }
}

/// One past the last character strictly before `i` that is not line
/// whitespace, or 0 if there is none.
pub open spec fn trim_to(s: Seq<char>, i: int) -> int
    decreases i,
{
    if i <= 0 || i > s.len() {
        0
    } else if is_line_space(s[i - 1]) {
        trim_to(s, i - 1)
    } else {
        i
    }
}

/// `s` with leading and trailing line whitespace removed.
pub open spec fn trimmed(s: Seq<char>) -> Seq<char> {
    let a = trim_from(s, 0);
    let b = trim_to(s, s.len() as int);
    if a < b {
        s.subrange(a, b)
    } else {
        Seq::empty()
    }
}

/// Whether `p` is a prefix of `s`.
pub open spec fn spec_starts_with(s: Seq<char>, p: Seq<char>) -> bool {
    s.len() >= p.len() && s.subrange(0, p.len() as int) == p
}

/// Whether `p` occurs in `s` as a contiguous run.
pub open spec fn spec_contains(s: Seq<char>, p: Seq<char>) -> bool {
    exists|i: int| 0 <= i && i + p.len() <= s.len() && #[trigger] s.subrange(i, i + p.len() as int) == p
}

/// Character-wise equality of two string slices.
pub fn str_eq(a: &str, b: &str) -> (r: bool)
    ensures
        r == (a@ == b@),
{
    let alen = a.unicode_len();
    let blen = b.unicode_len();
    if alen != blen {
        return false;
    }
    let mut i: usize = 0;
    while i < alen
        invariant
            i <= alen,
            alen == a@.len(),
            blen == b@.len(),
            alen == blen,
            forall|j: int| 0 <= j < i ==> a@[j] == b@[j],
        decreases alen - i,
    {
        if a.get_char(i) != b.get_char(i) {
            return false;
        }
        i = i + 1;
    }
    proof {
        assert(a@ =~= b@);
    }
    true
}

/// Whether `s` starts with the prefix `p`.
pub fn starts_with_str(s: &str, p: &str) -> (r: bool)
    ensures
        r == spec_starts_with(s@, p@),
{
    let slen = s.unicode_len();
    let plen = p.unicode_len();
    if slen < plen {
        return false;
    }
    let mut i: usize = 0;
    while i < plen
        invariant
            i <= plen,
            slen == s@.len(),
            plen == p@.len(),
            slen >= plen,
            forall|j: int| 0 <= j < i ==> s@[j] == p@[j],
        decreases plen - i,
    {
        if s.get_char(i) != p.get_char(i) {
            assert(s@.subrange(0, p@.len() as int)[i as int] != p@[i as int]);
            return false;
        }
        i = i + 1;
    }
    proof {
        assert(s@.subrange(0, p@.len() as int) =~= p@);
    }
    true
}

/// Whether the window of `s` starting at `at` equals `p`.
fn window_matches(s: &str, p: &str, at: usize) -> (r: bool)
    requires
        at + p@.len() <= s@.len(),
        s@.len() <= usize::MAX,
    ensures
        r == (s@.subrange(at as int, at + p@.len() as int) == p@),
{
    let plen = p.unicode_len();
    let mut j: usize = 0;
    while j < plen
        invariant
            j <= plen,
            plen == p@.len(),
            at + plen <= s@.len(),
            s@.len() <= usize::MAX,
            forall|k: int| 0 <= k < j ==> s@[at + k] == p@[k],
        decreases plen - j,
    {
        if s.get_char(at + j) != p.get_char(j) {
            assert(s@.subrange(at as int, at + p@.len() as int)[j as int] != p@[j as int]);
            return false;
        }
        j = j + 1;
    }
    proof {
        assert(s@.subrange(at as int, at + p@.len() as int) =~= p@);
    }
    true
}

/// Whether `p` occurs in `s` as a contiguous run.
pub fn contains_str(s: &str, p: &str) -> (r: bool)
    ensures
        r == spec_contains(s@, p@),
{
    let slen = s.unicode_len();
    let plen = p.unicode_len();
    if plen > slen {
        return false;
    }
    if plen == 0 {
        proof {
            assert(s@.subrange(0, 0 + p@.len() as int) =~= p@);
        }
        return true;
    }
    let mut i: usize = 0;
    while i <= slen - plen
        invariant
            0 < plen <= slen,
            slen == s@.len(),
            plen == p@.len(),
            i <= slen - plen + 1,
            forall|k: int| 0 <= k < i ==> #[trigger] s@.subrange(k, k + p@.len() as int) != p@,
        decreases slen - plen - i + 1,
    {
        if window_matches(s, p, i) {
            return true;
        }
        i = i + 1;
    }
    false
}

/// `s` with leading and trailing line whitespace removed.
pub fn trim_spaces<'a>(s: &'a str) -> (r: &'a str)
    ensures
        r@ == trimmed(s@),
{
    let n = s.unicode_len();
    let mut a: usize = 0;
    while a < n && is_space_char(s.get_char(a))
        invariant
            a <= n,
            n == s@.len(),
            trim_from(s@, 0) == trim_from(s@, a as int),
        decreases n - a,
    {
        a = a + 1;
    }
    assert(trim_from(s@, 0) == a as int);
    let mut b: usize = n;
    while b > a && is_space_char(s.get_char(b - 1))
        invariant
            a <= b <= n,
            n == s@.len(),
            trim_from(s@, 0) == a as int,
            trim_to(s@, n as int) == trim_to(s@, b as int),
        decreases b,
    {
        b = b - 1;
    }
    let r = s.substring_char(a, b);
    proof {
        lemma_trim_to_le(s@, b as int);
        if a < b {
            assert(trim_to(s@, b as int) == b as int);
            assert(r@ =~= trimmed(s@));
        } else {
            assert(r@ =~= trimmed(s@));
        }
    }
    r
}

/// The trimmed end never lies beyond the index it starts from.
proof fn lemma_trim_to_le(s: Seq<char>, i: int)
    requires
        0 <= i,
    ensures
        0 <= trim_to(s, i) <= i,
    decreases i,
{
    if i <= 0 || i > s.len() {
    } else if is_line_space(s[i - 1]) {
        lemma_trim_to_le(s, i - 1);
    }
}

/// Executable test matching [`is_line_space`].
fn is_space_char(c: char) -> (r: bool)
    ensures
        r == is_line_space(c),
{
    c == ' ' || c == '\t' || c == '\r' || c == '\n'
}

/// Index of the first character at or after `i` that is not a byte-order
/// mark, or the length of `s` if there is none.
pub open spec fn bom_from(s: Seq<char>, i: int) -> int
    decreases s.len() - i,
{
    if i < 0 || i >= s.len() {
        s.len() as int
    } else if s[i] == '\u{feff}' {
        bom_from(s, i + 1)
    } else {
        i
    }
}

/// `s` with every leading byte-order mark removed.
pub open spec fn spec_strip_bom(s: Seq<char>) -> Seq<char> {
    s.subrange(bom_from(s, 0), s.len() as int)
}

/// Index shift of [`bom_from`] under one prepended byte-order mark.
proof fn lemma_bom_from_shift(s: Seq<char>, i: int)
    requires
        0 <= i <= s.len(),
    ensures
        bom_from(seq!['\u{feff}'] + s, i + 1) == 1 + bom_from(s, i),
    decreases s.len() - i,
{
    let t = seq!['\u{feff}'] + s;
    if i < s.len() {
        assert(t[i + 1] == s[i]);
        if s[i] == '\u{feff}' {
            lemma_bom_from_shift(s, i + 1);
        }
    }
}

/// Law: prepending a byte-order mark to a text never changes its stripped
/// form, so anything computed from the stripped form is unchanged too.
pub proof fn lemma_strip_bom_prefix(s: Seq<char>)
    ensures
        spec_strip_bom(seq!['\u{feff}'] + s) == spec_strip_bom(s),
{
    let t = seq!['\u{feff}'] + s;
    assert(t[0] == '\u{feff}');
    lemma_bom_from_shift(s, 0);
    assert(bom_from(t, 0) == 1 + bom_from(s, 0));
    lemma_bom_from_le(s, 0);
    assert(spec_strip_bom(t) =~= spec_strip_bom(s));
}

/// A byte-order-mark scan never runs past the end, nor backward.
proof fn lemma_bom_from_le(s: Seq<char>, i: int)
    requires
        0 <= i <= s.len(),
    ensures
        i <= bom_from(s, i) <= s.len(),
    decreases s.len() - i,
{
    if i < s.len() && s[i] == '\u{feff}' {
        lemma_bom_from_le(s, i + 1);
    }
}

/// `s` with every leading byte-order mark removed.
pub fn strip_bom<'a>(s: &'a str) -> (r: &'a str)
    ensures
        r@ == spec_strip_bom(s@),
{
    let n = s.unicode_len();
    let mut a: usize = 0;
    while a < n && s.get_char(a) == '\u{feff}'
        invariant
            a <= n,
            n == s@.len(),
            bom_from(s@, 0) == bom_from(s@, a as int),
        decreases n - a,
    {
        a = a + 1;
    }
    let r = s.substring_char(a, n);
    proof {
        assert(r@ =~= spec_strip_bom(s@));
    }
    r
}

} // verus!
