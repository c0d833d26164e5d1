use vstd::prelude::*;

verus! {

/// A six-field value returned by value: the caller decides where it is placed.
pub fn foo() -> (r: (u64, u64, u64, u64, u64, u64))
    ensures
        r == (5u64, 5u64, 5u64, 5u64, 5u64, 5u64),
{
    (5, 5, 5, 5, 5, 5)
}

} // verus!
