//! Moving elements out of arrays and vectors without copying them.
use vstd::prelude::*;

verus! {

/// Moves the elements of an array into a vector, in order.
pub(crate) fn array_into_vec<T, const N: usize>(a: [T; N]) -> (v: Vec<T>)
    ensures
        v@ == a@,
{
    let boxed: Box<[T]> = Box::new(a);
    boxed.into_vec()
}

/// Removes and returns the last element of a non-empty vector.
pub(crate) fn take_last<T>(v: &mut Vec<T>) -> (x: T)
    requires
        old(v)@.len() > 0,
    ensures
        x == old(v)@.last(),
        final(v)@ == old(v)@.drop_last(),
{
    v.pop().unwrap()
}

/// Returns the elements of `v` in the opposite order.
pub(crate) fn reversed<T>(v: Vec<T>) -> (r: Vec<T>)
    ensures
        r@ == v@.reverse(),
{
    let mut v = v;
    let ghost start = v@;
    let mut r: Vec<T> = Vec::new();
    while v.len() > 0
        invariant
            r@.len() + v@.len() == start.len(),
            v@ == start.take(v@.len() as int),
            forall|k: int| 0 <= k < r@.len() ==> r@[k] == start[start.len() - 1 - k],
        decreases v@.len(),
    {
        let x = take_last(&mut v);
        r.push(x);
    }
    assert(r@ =~= start.reverse());
    r
}

} // verus!
