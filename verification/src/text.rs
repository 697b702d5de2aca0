//! Comparing string slices.

use vstd::prelude::*;

verus! {

/// `str`'s `==`: true exactly when the two slices hold the same characters
/// in the same order. std compares the UTF-8 bytes, and two slices have the
/// same bytes exactly when they have the same characters.
pub assume_specification[ <str as PartialEq>::eq ](a: &str, b: &str) -> (r: bool)
    ensures
        r == (a@ == b@),
;

/// Whether two slices hold the same text.
pub fn same_text(a: &str, b: &str) -> (r: bool)
    ensures
        r == (a@ == b@),
{
    a.eq(b)
}

} // verus!
