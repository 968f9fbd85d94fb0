//! Character-level string utilities: suffix tests and the cosmetic collapse
//! of doubled slashes used when building hyperlinks.

use vstd::prelude::*;
use vstd::string::StrSliceExecFns;
use vstd::string::StringExecFns;

verus! {

/// `suf` is a suffix of `s`.
pub open spec fn suffix_of(suf: Seq<char>, s: Seq<char>) -> bool {
    suf.len() <= s.len() && s.subrange(s.len() - suf.len(), s.len() as int) == suf
}

/// Whether `s` ends with `suffix`, character by character.
pub fn str_ends_with(s: &str, suffix: &str) -> (r: bool)
    ensures
        r == suffix_of(suffix@, s@),
{
    let n: usize = s.unicode_len();
    let m: usize = suffix.unicode_len();
    if m > n {
        return false;
    }
    let mut i: usize = 0;
    while i < m
        invariant
            m <= n,
            n == s@.len(),
            m == suffix@.len(),
            i <= m,
            forall|j: int| 0 <= j < i ==> s@[n - m + j] == suffix@[j],
        decreases m - i,
    {
        if s.get_char(n - m + i) != suffix.get_char(i) {
            proof {
                assert(s@.subrange(n - m, n as int)[i as int] == s@[n - m + i]);
            }
            return false;
        }
        i += 1;
    }
    proof {
        assert(s@.subrange(n - m, n as int) =~= suffix@);
    }
    true
}

/// `s` with each non-overlapping `//` pair, found left to right, replaced by
/// a single `/`.
pub open spec fn collapse_slashes(s: Seq<char>) -> Seq<char>
    decreases s.len(),
{
    if s.len() >= 2 && s[0] == '/' && s[1] == '/' {
        seq!['/'] + collapse_slashes(s.skip(2))
    } else if s.len() >= 1 {
        seq![s[0]] + collapse_slashes(s.skip(1))
    } else {
        Seq::<char>::empty()
    }
}

/// Replaces every `//` in `s` by `/`, scanning left to right.
pub fn collapse_double_slashes(s: &str) -> (r: String)
    ensures
        r@ == collapse_slashes(s@),
{
    let n: usize = s.unicode_len();
    let mut out: String = String::new();
    let mut i: usize = 0;
    proof {
        assert(s@.skip(0) =~= s@);
        assert(out@ + collapse_slashes(s@) =~= collapse_slashes(s@));
    }
    while i < n
        invariant
            n == s@.len(),
            i <= n,
            collapse_slashes(s@) == out@ + collapse_slashes(s@.skip(i as int)),
        decreases n - i,
    {
        let ghost tail = s@.skip(i as int);
        if s.get_char(i) == '/' && i + 1 < n && s.get_char(i + 1) == '/' {
            out.append("/");
            proof {
                reveal_strlit("/");
                assert("/"@ =~= seq!['/']);
                assert(tail.skip(2) =~= s@.skip(i + 2));
                assert(out@ + collapse_slashes(s@.skip(i + 2)) =~= collapse_slashes(s@));
            }
            i += 2;
        } else {
            out.append(s.substring_char(i, i + 1));
            proof {
                assert(s@.subrange(i as int, i + 1) =~= seq![tail[0]]);
                assert(tail.skip(1) =~= s@.skip(i + 1));
                assert(out@ + collapse_slashes(s@.skip(i + 1)) =~= collapse_slashes(s@));
            }
            i += 1;
        }
    }
    proof {
        assert(s@.skip(n as int) =~= Seq::<char>::empty());
        assert(out@ =~= collapse_slashes(s@));
    }
    out
}

} // verus!
