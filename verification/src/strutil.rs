//! Small string helpers shared by the pipelines.

use vstd::prelude::*;

verus! {

/// Whether a string equals a literal, compared by contents.
pub(crate) fn str_is(a: &String, b: &str) -> (r: bool)
    ensures
        r == (a@ == b@),
{
    *a == b.to_owned()
}

} // verus!
