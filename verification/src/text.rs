//! Trimming and case-insensitive normalization of input lines.
//!
//! Commands and the chat quit word are recognized on a line after its
//! surrounding whitespace is removed and its ASCII letters are lowered.

use vstd::prelude::*;

verus! {

/// Holds exactly of the characters with Unicode's `White_Space` property,
/// the set that trimming removes from both ends of an input line.
pub open spec fn is_space_char(c: char) -> bool {
    let u: u32 = c as u32;
    (9 <= u && u <= 13) || u == 32 || u == 0x85 || u == 0xA0 || u == 0x1680 || (0x2000 <= u && u
        <= 0x200A) || u == 0x2028 || u == 0x2029 || u == 0x202F || u == 0x205F || u == 0x3000
}

/// `s` with every leading and trailing whitespace character removed.
pub open spec fn trimmed(s: Seq<char>) -> Seq<char>
    decreases s.len(),
{
    if s.len() == 0 {
        s
    } else if is_space_char(s[0]) {
        trimmed(s.drop_first())
    } else if is_space_char(s.last()) {
        trimmed(s.drop_last())
    } else {
        s
    }
}

/// The code point of `c`, with an ASCII capital letter lowered.
pub open spec fn lower_code(c: char) -> u32 {
    let u: u32 = c as u32;
    if 65 <= u && u <= 90 {
        (u + 32) as u32
    } else {
        u
    }
}

/// The code points of `s`, unchanged.
pub open spec fn codes_of(s: Seq<char>) -> Seq<u32> {
    s.map(|i: int, c: char| c as u32)
}

/// The code points of `s`, each ASCII capital letter lowered.
pub open spec fn lower_codes_of(s: Seq<char>) -> Seq<u32> {
    s.map(|i: int, c: char| lower_code(c))
}

/// The normal form a line is matched in: trimmed, then case-lowered.
pub open spec fn norm_codes(s: Seq<char>) -> Seq<u32> {
    lower_codes_of(trimmed(s))
}

fn is_space(c: char) -> (b: bool)
    ensures
        b == is_space_char(c),
{
    let u: u32 = c as u32;
    (9 <= u && u <= 13) || u == 32 || u == 0x85 || u == 0xA0 || u == 0x1680 || (0x2000 <= u && u
        <= 0x200A) || u == 0x2028 || u == 0x2029 || u == 0x202F || u == 0x205F || u == 0x3000
}

proof fn lemma_trimmed_is_subrange(s: Seq<char>, lo: int, hi: int)
    requires
        0 <= lo <= hi <= s.len(),
        forall|k: int| 0 <= k < lo ==> is_space_char(s[k]),
        forall|k: int| hi <= k < s.len() ==> is_space_char(s[k]),
        lo < hi ==> !is_space_char(s[lo]) && !is_space_char(s[hi - 1]),
    ensures
        trimmed(s) == s.subrange(lo, hi),
    decreases s.len(),
{
    if s.len() == 0 {
        assert(trimmed(s) =~= s.subrange(lo, hi));
    } else if is_space_char(s[0]) {
        if lo > 0 {
            lemma_trimmed_is_subrange(s.drop_first(), lo - 1, hi - 1);
            assert(s.drop_first().subrange(lo - 1, hi - 1) =~= s.subrange(lo, hi));
        } else {
            assert(lo == hi);
            lemma_trimmed_is_subrange(s.drop_first(), 0, 0);
            assert(s.drop_first().subrange(0, 0) =~= s.subrange(lo, hi));
        }
    } else if is_space_char(s.last()) {
        assert(lo == 0);
        assert(lo < hi);
        assert(hi < s.len());
        lemma_trimmed_is_subrange(s.drop_last(), lo, hi);
        assert(s.drop_last().subrange(lo, hi) =~= s.subrange(lo, hi));
    } else {
        assert(lo == 0);
        assert(hi == s.len());
        assert(trimmed(s) == s);
        assert(s.subrange(lo, hi) =~= s);
    }
}

/// The bounds of the trimmed region of `s`: the region's characters are
/// exactly `trimmed(s@)`.
pub fn trim_bounds(s: &str) -> (r: (usize, usize))
    ensures
        r.0 <= r.1 <= s@.len(),
        trimmed(s@) == s@.subrange(r.0 as int, r.1 as int),
        forall|k: int| 0 <= k < r.0 ==> is_space_char(s@[k]),
        forall|k: int| r.1 <= k < s@.len() ==> is_space_char(s@[k]),
{
    let n: usize = s.unicode_len();
    let mut lo: usize = 0;
    while lo < n && is_space(s.get_char(lo))
        invariant
            lo <= n,
            n == s@.len(),
            forall|k: int| 0 <= k < lo ==> is_space_char(s@[k]),
        decreases n - lo,
    {
        lo = lo + 1;
    }
    let mut hi: usize = n;
    while hi > lo && is_space(s.get_char(hi - 1))
        invariant
            lo <= hi <= n,
            n == s@.len(),
            lo == n || !is_space_char(s@[lo as int]),
            forall|k: int| 0 <= k < lo ==> is_space_char(s@[k]),
            forall|k: int| hi <= k < n ==> is_space_char(s@[k]),
        decreases hi - lo,
    {
        hi = hi - 1;
    }
    proof {
        lemma_trimmed_is_subrange(s@, lo as int, hi as int);
    }
    (lo, hi)
}

/// Whether the characters of `s` between `lo` and `hi`, case-lowered,
/// spell exactly the word `kw`.
pub fn region_matches(s: &str, lo: usize, hi: usize, kw: &str) -> (r: bool)
    requires
        lo <= hi <= s@.len(),
    ensures
        r == (lower_codes_of(s@.subrange(lo as int, hi as int)) == codes_of(kw@)),
{
    let ghost sub: Seq<char> = s@.subrange(lo as int, hi as int);
    let m: usize = kw.unicode_len();
    if hi - lo != m {
        proof {
            assert(lower_codes_of(sub).len() != codes_of(kw@).len());
        }
        return false;
    }
    let mut j: usize = 0;
    while j < m
        invariant
            j <= m,
            m == kw@.len(),
            lo + m == hi,
            hi <= s@.len(),
            sub == s@.subrange(lo as int, hi as int),
            forall|k: int| 0 <= k < j ==> lower_codes_of(sub)[k] == codes_of(kw@)[k],
        decreases m - j,
    {
        let c: char = s.get_char(lo + j);
        let k: char = kw.get_char(j);
        let u: u32 = c as u32;
        let lu: u32 = if 65 <= u && u <= 90 {
            u + 32
        } else {
            u
        };
        if lu != k as u32 {
            proof {
                assert(lower_codes_of(sub)[j as int] == lower_code(sub[j as int]));
                assert(codes_of(kw@)[j as int] == kw@[j as int] as u32);
                assert(lower_codes_of(sub)[j as int] != codes_of(kw@)[j as int]);
            }
            return false;
        }
        j = j + 1;
    }
    proof {
        assert(lower_codes_of(sub) =~= codes_of(kw@));
    }
    true
}

} // verus!
