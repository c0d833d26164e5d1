use vstd::prelude::*;

verus! {

/// The square of `x`, as an unsigned number.
pub fn square(x: i64) -> (r: u64)
    requires
        x * x <= i64::MAX,
    ensures
        r == x * x,
{
    assert(0 <= x * x) by (nonlinear_arith);
    (x * x) as u64
}

/// Calls `f` two times.
pub fn call_twice<F: Fn()>(f: F)
    requires
        f.requires(()),
{
    f();
    f();
}

/// A function that takes nothing and does nothing; it can be handed to [`call_twice`].
pub fn function() {
}

} // verus!
