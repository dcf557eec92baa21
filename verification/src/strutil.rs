//! Character-level string helpers: equality and substring search, specified
//! over the `Seq<char>` views of `&str`.

use vstd::prelude::*;
use vstd::string::StrSliceExecFns;

verus! {

/// The pattern `pat` occurs in `text` starting at character position `i`.
pub open spec fn is_match_at(text: Seq<char>, pat: Seq<char>, i: int) -> bool {
    &&& 0 <= i
    &&& i + pat.len() <= text.len()
    &&& text.subrange(i, i + pat.len() as int) == pat
}

/// The pattern `pat` occurs somewhere in `text`.
pub open spec fn contains_seq(text: Seq<char>, pat: Seq<char>) -> bool {
    exists|i: int| is_match_at(text, pat, i)
}

/// Two string slices hold the same characters.
pub fn str_eq(a: &str, b: &str) -> (r: bool)
    ensures
        r == (a@ == b@),
{
    let n = a.unicode_len();
    let m = b.unicode_len();
    if n != m {
        proof {
            if a@ == b@ {
                assert(a@.len() == b@.len());
            }
        }
        return false;
    }
    let mut j: usize = 0;
    while j < n
        invariant
            j <= n,
            n == a@.len(),
            n == b@.len(),
            forall|k: int| 0 <= k < j ==> a@[k] == b@[k],
        decreases n - j,
    {
        if a.get_char(j) != b.get_char(j) {
            proof {
                if a@ == b@ {
                    assert(a@[j as int] == b@[j as int]);
                }
            }
            return false;
        }
        j += 1;
    }
    proof {
        assert(a@ =~= b@);
    }
    true
}

/// Whether `pat` occurs in `text` starting at character position `i`.
fn match_at(text: &str, pat: &str, i: usize) -> (b: bool)
    requires
        i + pat@.len() <= text@.len(),
        text@.len() <= usize::MAX,
    ensures
        b == is_match_at(text@, pat@, i as int),
{
    let m = pat.unicode_len();
    let mut j: usize = 0;
    while j < m
        invariant
            j <= m,
            m == pat@.len(),
            i + m <= text@.len() <= usize::MAX,
            forall|k: int| 0 <= k < j ==> text@[i + k] == pat@[k],
        decreases m - j,
    {
        if text.get_char(i + j) != pat.get_char(j) {
            proof {
                if is_match_at(text@, pat@, i as int) {
                    assert(text@.subrange(i as int, i + pat@.len() as int)[j as int]
                        == text@[i + j]);
                }
            }
            return false;
        }
        j += 1;
    }
    proof {
        assert(text@.subrange(i as int, i + pat@.len() as int) =~= pat@);
    }
    true
}

/// Case-sensitive substring search: whether `pat` occurs anywhere in `text`.
pub fn contains_str(text: &str, pat: &str) -> (b: bool)
    ensures
        b == contains_seq(text@, pat@),
{
    let n = text.unicode_len();
    let m = pat.unicode_len();
    if m == 0 {
        proof {
            assert(text@.subrange(0, 0) =~= pat@);
            assert(is_match_at(text@, pat@, 0));
        }
        return true;
    }
    if m > n {
        proof {
            assert forall|i: int| !is_match_at(text@, pat@, i) by {
                if 0 <= i && i + pat@.len() <= text@.len() {
                    assert(false);
                }
            }
        }
        return false;
    }
    let mut i: usize = 0;
    while i <= n - m
        invariant
            1 <= m <= n,
            n == text@.len(),
            m == pat@.len(),
            i <= n - m + 1,
            forall|k: int| 0 <= k < i ==> !is_match_at(text@, pat@, k),
        decreases n - m - i + 1,
    {
        if match_at(text, pat, i) {
            return true;
        }
        i += 1;
    }
    proof {
        assert forall|k: int| !is_match_at(text@, pat@, k) by {
            if 0 <= k && k + pat@.len() <= text@.len() {
                assert(k < i);
            }
        }
    }
    false
}

} // verus!
