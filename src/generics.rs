use vstd::prelude::*;

verus! {

/// Applies `function` to each element of `vector`, in order, and collects the results.
pub fn map<T, U, F: Fn(&T) -> U>(vector: &[T], function: F) -> (r: Vec<U>)
    requires
        forall|i: int| 0 <= i < vector@.len() ==> function.requires((&vector@[i],)),
    ensures
        r@.len() == vector@.len(),
        forall|i: int|
            0 <= i < vector@.len() ==> function.ensures((&vector@[i],), #[trigger] r@[i]),
{
    let mut accumulator: Vec<U> = Vec::new();
    let mut k: usize = 0;
    while k < vector.len()
        invariant
            k <= vector@.len(),
            accumulator@.len() == k,
            forall|i: int| 0 <= i < vector@.len() ==> function.requires((&vector@[i],)),
            forall|i: int| 0 <= i < k ==> function.ensures((&vector@[i],), #[trigger] accumulator@[i]),
        decreases vector@.len() - k,
    {
        let u = function(&vector[k]);
        accumulator.push(u);
        k = k + 1;
    }
    accumulator
}

/// A clone of the first element of `v`.
pub fn head<T: Clone>(v: &[T]) -> (r: T)
    requires
        v@.len() > 0,
    ensures
        cloned(v@[0], r),
{
    v[0].clone()
}

} // verus!
