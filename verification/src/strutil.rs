//! Character-level string helpers the codec and the guards build on.
use vstd::prelude::*;
use vstd::string::*;

verus! {

/// Whether the characters of `s` from `at` on start with `lit`.
pub open spec fn lit_at(s: Seq<char>, at: int, lit: Seq<char>) -> bool {
    &&& 0 <= at
    &&& at + lit.len() <= s.len()
    &&& s.subrange(at, at + lit.len()) == lit
}

/// Compares the characters of `s` from `at` on against `lit`, in full.
pub fn match_lit_at(s: &str, at: usize, lit: &str) -> (r: bool)
    ensures
        r == lit_at(s@, at as int, lit@),
{
    let n = s.unicode_len();
    let m = lit.unicode_len();
    if at > n || m > n - at {
        return false;
    }
    let mut k: usize = 0;
    while k < m
        invariant
            k <= m,
            at + m <= n,
            n == s@.len(),
            m == lit@.len(),
            forall|i: int| 0 <= i < k ==> s@[at + i] == lit@[i],
        decreases m - k,
    {
        if s.get_char(at + k) != lit.get_char(k) {
            proof {
                assert(s@[at + k as int] != lit@[k as int]);
                assert(s@.subrange(at as int, at + lit@.len()) != lit@) by {
                    if s@.subrange(at as int, at + lit@.len()) == lit@ {
                        assert(s@.subrange(at as int, at + lit@.len())[k as int] == lit@[k as int]);
                    }
                }
            }
            return false;
        }
        k += 1;
    }
    proof {
        assert(s@.subrange(at as int, at + lit@.len()) =~= lit@);
    }
    true
}

/// Whether two strings hold the same characters.
pub fn str_eq(a: &str, b: &str) -> (r: bool)
    ensures
        r == (a@ == b@),
{
    let na = a.unicode_len();
    let nb = b.unicode_len();
    if na != nb {
        proof {
            assert(a@ != b@);
        }
        return false;
    }
    let mut k: usize = 0;
    while k < na
        invariant
            k <= na,
            na == a@.len(),
            na == b@.len(),
            forall|i: int| 0 <= i < k ==> a@[i] == b@[i],
        decreases na - k,
    {
        if a.get_char(k) != b.get_char(k) {
            return false;
        }
        k += 1;
    }
    proof {
        assert(a@ =~= b@);
    }
    true
}

} // verus!
