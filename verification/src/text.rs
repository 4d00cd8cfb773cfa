//! String utilities shared across the library.
//!
//! The conflict detector and the letterbox pairer compare strings after
//! normalisation (trimming and case folding) and search for substrings.
//! Case folding is delegated to the standard library and named by the
//! uninterpreted function `lower_of`; everything else is verified here.

use vstd::prelude::*;

verus! {

/// The characters with the Unicode `White_Space` property, which is the set
/// that `str::trim` strips from both ends of a string.
pub open spec fn is_wspace(c: char) -> bool {
    c == '\u{0009}' || c == '\u{000A}' || c == '\u{000B}' || c == '\u{000C}' || c == '\u{000D}'
        || c == '\u{0020}' || c == '\u{0085}' || c == '\u{00A0}' || c == '\u{1680}'
        || c == '\u{2000}' || c == '\u{2001}' || c == '\u{2002}' || c == '\u{2003}'
        || c == '\u{2004}' || c == '\u{2005}' || c == '\u{2006}' || c == '\u{2007}'
        || c == '\u{2008}' || c == '\u{2009}' || c == '\u{200A}' || c == '\u{2028}'
        || c == '\u{2029}' || c == '\u{202F}' || c == '\u{205F}' || c == '\u{3000}'
}

/// A string with its leading whitespace removed.
pub open spec fn trim_start_spec(s: Seq<char>) -> Seq<char>
    decreases s.len(),
{
    if s.len() > 0 && is_wspace(s[0]) {
        trim_start_spec(s.drop_first())
    } else {
        s
    }
}

/// A string with its trailing whitespace removed.
pub open spec fn trim_end_spec(s: Seq<char>) -> Seq<char>
    decreases s.len(),
{
    if s.len() > 0 && is_wspace(s[s.len() - 1]) {
        trim_end_spec(s.drop_last())
    } else {
        s
    }
}

/// A string with whitespace removed from both ends, as `str::trim` leaves it.
pub open spec fn trim_spec(s: Seq<char>) -> Seq<char> {
    trim_end_spec(trim_start_spec(s))
}

/// The lowercase form of a string, as `str::to_lowercase` computes it.
/// The result depends on the characters alone.
pub uninterp spec fn lower_of(s: Seq<char>) -> Seq<char>;

/// Relies on `str::trim`: it removes the leading and trailing characters
/// with the Unicode `White_Space` property and nothing else.
#[verifier::external_body]
pub fn trim_owned(s: &str) -> (r: String)
    ensures
        r@ == trim_spec(s@),
{
    s.trim().to_string()
}

/// Relies on `str::to_lowercase`: the result is a function of the input
/// characters alone, here named `lower_of`.
#[verifier::external_body]
pub fn lowercase(s: &str) -> (r: String)
    ensures
        r@ == lower_of(s@),
{
    s.to_lowercase()
}

/// The character for a single decimal digit.
pub open spec fn digit_char(d: nat) -> char {
    if d == 0 { '0' }
    else if d == 1 { '1' }
    else if d == 2 { '2' }
    else if d == 3 { '3' }
    else if d == 4 { '4' }
    else if d == 5 { '5' }
    else if d == 6 { '6' }
    else if d == 7 { '7' }
    else if d == 8 { '8' }
    else { '9' }
}

/// The decimal digits of a natural number, most significant first,
/// without leading zeros (a lone zero for 0).
pub open spec fn dec_digits(n: nat) -> Seq<char>
    decreases n,
{
    if n < 10 {
        seq![digit_char(n)]
    } else {
        dec_digits(n / 10).push(digit_char(n % 10))
    }
}

/// Relies on `u64`'s `Display` implementation: the decimal digits of the
/// number, most significant first, without leading zeros.
#[verifier::external_body]
pub fn u64_to_string(n: u64) -> (r: String)
    ensures
        r@ == dec_digits(n as nat),
{
    n.to_string()
}

/// Whether `n` occurs in `h` starting at position `i`.
pub open spec fn contains_at(h: Seq<char>, n: Seq<char>, i: int) -> bool {
    0 <= i && i + n.len() <= h.len() && h.subrange(i, i + n.len()) == n
}

/// Whether `n` occurs anywhere in `h` as a contiguous substring.
pub open spec fn spec_contains(h: Seq<char>, n: Seq<char>) -> bool {
    exists|i: int| contains_at(h, n, i)
}

/// Whether `s` ends with the suffix `n`.
pub open spec fn spec_ends_with(s: Seq<char>, n: Seq<char>) -> bool {
    s.len() >= n.len() && s.subrange(s.len() - n.len(), s.len() as int) == n
}

/// Compares `needle` against the characters of `hay` starting at `i`.
fn match_at(hay: &str, needle: &str, i: usize, hlen: usize, nlen: usize) -> (r: bool)
    requires
        hlen == hay@.len(),
        nlen == needle@.len(),
        i + nlen <= hlen,
    ensures
        r == (hay@.subrange(i as int, i + nlen) == needle@),
{
    let mut j: usize = 0;
    while j < nlen
        invariant
            hlen == hay@.len(),
            nlen == needle@.len(),
            i + nlen <= hlen,
            j <= nlen,
            forall|m: int| 0 <= m < j ==> hay@[i + m] == needle@[m],
        decreases nlen - j,
    {
        let hc = hay.get_char(i + j);
        let nc = needle.get_char(j);
        if hc != nc {
            proof {
                assert(hay@.subrange(i as int, i + nlen)[j as int] == hay@[i + j]);
            }
            return false;
        }
        j = j + 1;
    }
    proof {
        assert(hay@.subrange(i as int, i + nlen) =~= needle@);
    }
    true
}

/// Substring search: whether `needle` occurs contiguously in `hay`.
pub fn contains_sub(hay: &str, needle: &str) -> (r: bool)
    ensures
        r == spec_contains(hay@, needle@),
{
    let hlen = hay.unicode_len();
    let nlen = needle.unicode_len();
    if nlen > hlen {
        return false;
    }
    if nlen == 0 {
        proof {
            assert(hay@.subrange(0, 0) =~= needle@);
            assert(contains_at(hay@, needle@, 0));
        }
        return true;
    }
    let mut i: usize = 0;
    while i <= hlen - nlen
        invariant
            hlen == hay@.len(),
            nlen == needle@.len(),
            0 < nlen <= hlen,
            i <= hlen - nlen + 1,
            forall|k: int| 0 <= k < i ==> !contains_at(hay@, needle@, k),
        decreases hlen - i,
    {
        if match_at(hay, needle, i, hlen, nlen) {
            proof {
                assert(contains_at(hay@, needle@, i as int));
            }
            return true;
        }
        i = i + 1;
    }
    proof {
        assert forall|k: int| !contains_at(hay@, needle@, k) by {
            if 0 <= k < i {
            } else if k >= i {
                assert(k + needle@.len() > hay@.len());
            }
        }
    }
    false
}

/// Character-for-character string equality.
pub fn str_eq(a: &str, b: &str) -> (r: bool)
    ensures
        r == (a@ == b@),
{
    let alen = a.unicode_len();
    let blen = b.unicode_len();
    if alen != blen {
        return false;
    }
    let r = match_at(a, b, 0, alen, blen);
    proof {
        assert(a@.subrange(0, blen as int) =~= a@);
    }
    r
}

/// Whether `s` ends with the suffix `suffix`.
pub fn ends_with_str(s: &str, suffix: &str) -> (r: bool)
    ensures
        r == spec_ends_with(s@, suffix@),
{
    let slen = s.unicode_len();
    let xlen = suffix.unicode_len();
    if xlen > slen {
        return false;
    }
    match_at(s, suffix, slen - xlen, slen, xlen)
}

/// The views of a sequence of strings.
pub open spec fn seq_views(s: Seq<String>) -> Seq<Seq<char>> {
    s.map_values(|x: String| x@)
}

/// Whether some element of `v` has the same characters as `s`.
pub fn vec_contains_string(v: &Vec<String>, s: &String) -> (r: bool)
    ensures
        r == seq_views(v@).contains(s@),
{
    let n = v.len();
    let mut i: usize = 0;
    while i < n
        invariant
            n == v@.len(),
            i <= n,
            forall|k: int| 0 <= k < i ==> seq_views(v@)[k] != s@,
        decreases n - i,
    {
        if v[i] == *s {
            proof {
                assert(seq_views(v@)[i as int] == s@);
            }
            return true;
        }
        i = i + 1;
    }
    proof {
        assert(forall|k: int| 0 <= k < v@.len() ==> seq_views(v@)[k] != s@);
    }
    false
}

/// Joins two strings.
pub fn concat_str(a: &str, b: &str) -> (r: String)
    ensures
        r@ == a@ + b@,
{
    let mut out = a.to_owned();
    out.append(b);
    out
}

} // verus!
