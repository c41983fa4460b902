//! Small verified helpers on strings.

use vstd::prelude::*;

verus! {

/// Character-for-character equality of two string slices.
pub fn str_eq(a: &str, b: &str) -> (r: bool)
    ensures
        r == (a@ == b@),
{
    let a_owned: String = a.to_owned();
    let b_owned: String = b.to_owned();
    a_owned == b_owned
}

} // verus!
