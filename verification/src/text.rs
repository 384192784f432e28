//! Character-exact text helpers shared by the store, registry and router.

use vstd::prelude::*;

verus! {

/// Character-by-character string equality, exact to view equality.
pub fn str_eq(a: &str, b: &str) -> (r: bool)
    ensures
        r == (a@ == b@),
{
    let alen = a.unicode_len();
    let blen = b.unicode_len();
    if alen != blen {
        return false;
    }
    let mut i: usize = 0;
    while i < alen
        invariant
            alen == a@.len(),
            alen == b@.len(),
            0 <= i <= alen,
            forall|k: int| 0 <= k < i ==> a@[k] == b@[k],
        decreases alen - i,
    {
        if a.get_char(i) != b.get_char(i) {
            return false;
        }
        i = i + 1;
    }
    proof {
        assert(a@ =~= b@);
    }
    true
}

} // verus!
