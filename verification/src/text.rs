//! Character-level helpers on `&str` used by the parsing and matching
//! code: equality of two strings and equality of a string against a
//! window of another, stated over the character views.

use vstd::prelude::*;

verus! {

/// Exact equality of two strings, by characters.
pub fn str_eq(a: &str, b: &str) -> (r: bool)
    ensures
        r == (a@ == b@),
{
    let n = a.unicode_len();
    let m = b.unicode_len();
    if n != m {
        proof {
            if a@ == b@ {
                assert(a@.len() == b@.len());
            }
        }
        return false;
    }
    let mut i: usize = 0;
    while i < n
        invariant
            n == a@.len(),
            n == b@.len(),
            i <= n,
            forall|k: int| 0 <= k < i ==> a@[k] == b@[k],
        decreases n - i,
    {
        if a.get_char(i) != b.get_char(i) {
            proof {
                if a@ == b@ {
                    assert(a@[i as int] == b@[i as int]);
                }
            }
            return false;
        }
        i += 1;
    }
    proof {
        assert(a@ =~= b@);
    }
    true
}

/// Does the window of `s` starting at `i` spell exactly `r`?
pub fn matches_at(s: &str, i: usize, r: &str) -> (b: bool)
    requires
        i + r@.len() <= s@.len(),
    ensures
        b == (s@.subrange(i as int, i + r@.len()) == r@),
{
    let m = r.unicode_len();
    let n = s.unicode_len();
    let mut k: usize = 0;
    while k < m
        invariant
            m == r@.len(),
            n == s@.len(),
            i + m <= n,
            k <= m,
            forall|t: int| 0 <= t < k ==> s@[i + t] == r@[t],
        decreases m - k,
    {
        if s.get_char(i + k) != r.get_char(k) {
            proof {
                if s@.subrange(i as int, i + r@.len()) == r@ {
                    assert(s@.subrange(i as int, i + r@.len())[k as int] == r@[k as int]);
                }
            }
            return false;
        }
        k += 1;
    }
    proof {
        assert(s@.subrange(i as int, i + r@.len()) =~= r@);
    }
    true
}

} // verus!
