//! Higher order maps: one shared function applied to every leaf of a structure.
use crate::ho::Call;
use crate::moves::{array_into_vec, take_last};
use vstd::prelude::*;

verus! {

/// Implemented by higher order maps.
///
/// A higher order map takes common data structures such as vectors and arrays
/// and applies a function to every element. This is implemented recursively,
/// hence higher order maps: an element may itself be a vector or an array.
///
/// The function is borrowed and shared by all positions. The output has the
/// shape of the input, and what stands at a position of the output comes from
/// what stands at that position of the input.
pub trait HMap<Out> {
    /// The function type.
    type Fun;

    /// Whether `f` may be applied to every leaf of `self`.
    spec fn hmap_pre(self, f: &Self::Fun) -> bool;

    /// Whether `out` is `self` with `f` applied to every leaf.
    spec fn hmap_post(self, f: &Self::Fun, out: Out) -> bool;

    /// Maps structure.
    fn hmap(self, f: &Self::Fun) -> (out: Out)
        requires
            self.hmap_pre(f),
        ensures
            self.hmap_post(f, out),
    ;
}

/// The leaf rule: mapping a single argument is calling the function with it.
impl<T, U> HMap<U> for T where U: Call<T> {
    type Fun = U::Fun;

    open spec fn hmap_pre(self, f: &Self::Fun) -> bool {
        U::call_pre(f, self)
    }

    open spec fn hmap_post(self, f: &Self::Fun, out: U) -> bool {
        U::call_post(f, self, out)
    }

    fn hmap(self, f: &Self::Fun) -> (out: U) {
        <U as Call<T>>::call(f, self)
    }
}

impl<T, U> HMap<[U; 2]> for [T; 2] where T: HMap<U> {
    type Fun = T::Fun;

    open spec fn hmap_pre(self, f: &Self::Fun) -> bool {
        forall|i: int| 0 <= i < 2 ==> (#[trigger] self[i]).hmap_pre(f)
    }

    open spec fn hmap_post(self, f: &Self::Fun, out: [U; 2]) -> bool {
        forall|i: int| 0 <= i < 2 ==> self[i].hmap_post(f, #[trigger] out[i])
    }

    fn hmap(self, f: &Self::Fun) -> (out: [U; 2]) {
        let mut items = array_into_vec(self);
        let b = take_last(&mut items);
        let a = take_last(&mut items);
        [a.hmap(f), b.hmap(f)]
    }
}

impl<T, U> HMap<[U; 3]> for [T; 3] where T: HMap<U> {
    type Fun = T::Fun;

    open spec fn hmap_pre(self, f: &Self::Fun) -> bool {
        forall|i: int| 0 <= i < 3 ==> (#[trigger] self[i]).hmap_pre(f)
    }

    open spec fn hmap_post(self, f: &Self::Fun, out: [U; 3]) -> bool {
        forall|i: int| 0 <= i < 3 ==> self[i].hmap_post(f, #[trigger] out[i])
    }

    fn hmap(self, f: &Self::Fun) -> (out: [U; 3]) {
        let mut items = array_into_vec(self);
        let c = take_last(&mut items);
        let b = take_last(&mut items);
        let a = take_last(&mut items);
        [a.hmap(f), b.hmap(f), c.hmap(f)]
    }
}

impl<T, U> HMap<[U; 4]> for [T; 4] where T: HMap<U> {
    type Fun = T::Fun;

    open spec fn hmap_pre(self, f: &Self::Fun) -> bool {
        forall|i: int| 0 <= i < 4 ==> (#[trigger] self[i]).hmap_pre(f)
    }

    open spec fn hmap_post(self, f: &Self::Fun, out: [U; 4]) -> bool {
        forall|i: int| 0 <= i < 4 ==> self[i].hmap_post(f, #[trigger] out[i])
    }

    fn hmap(self, f: &Self::Fun) -> (out: [U; 4]) {
        let mut items = array_into_vec(self);
        let d = take_last(&mut items);
        let c = take_last(&mut items);
        let b = take_last(&mut items);
        let a = take_last(&mut items);
        [a.hmap(f), b.hmap(f), c.hmap(f), d.hmap(f)]
    }
}

impl<T, U> HMap<[U; 5]> for [T; 5] where T: HMap<U> {
    type Fun = T::Fun;

    open spec fn hmap_pre(self, f: &Self::Fun) -> bool {
        forall|i: int| 0 <= i < 5 ==> (#[trigger] self[i]).hmap_pre(f)
    }

    open spec fn hmap_post(self, f: &Self::Fun, out: [U; 5]) -> bool {
        forall|i: int| 0 <= i < 5 ==> self[i].hmap_post(f, #[trigger] out[i])
    }

    fn hmap(self, f: &Self::Fun) -> (out: [U; 5]) {
        let mut items = array_into_vec(self);
        let e = take_last(&mut items);
        let d = take_last(&mut items);
        let c = take_last(&mut items);
        let b = take_last(&mut items);
        let a = take_last(&mut items);
        [
            a.hmap(f),
            b.hmap(f),
            c.hmap(f),
            d.hmap(f),
            e.hmap(f),
        ]
    }
}

impl<T, U> HMap<[U; 6]> for [T; 6] where T: HMap<U> {
    type Fun = T::Fun;

    open spec fn hmap_pre(self, f: &Self::Fun) -> bool {
        forall|i: int| 0 <= i < 6 ==> (#[trigger] self[i]).hmap_pre(f)
    }

    open spec fn hmap_post(self, f: &Self::Fun, out: [U; 6]) -> bool {
        forall|i: int| 0 <= i < 6 ==> self[i].hmap_post(f, #[trigger] out[i])
    }

    fn hmap(self, fx: &Self::Fun) -> (out: [U; 6]) {
        let mut items = array_into_vec(self);
        let f = take_last(&mut items);
        let e = take_last(&mut items);
        let d = take_last(&mut items);
        let c = take_last(&mut items);
        let b = take_last(&mut items);
        let a = take_last(&mut items);
        [
            a.hmap(fx),
            b.hmap(fx),
            c.hmap(fx),
            d.hmap(fx),
            e.hmap(fx),
            f.hmap(fx),
        ]
    }
}

impl<T, U> HMap<Vec<U>> for Vec<T> where T: HMap<U> {
    type Fun = T::Fun;

    open spec fn hmap_pre(self, f: &Self::Fun) -> bool {
        forall|i: int| 0 <= i < self@.len() ==> (#[trigger] self@[i]).hmap_pre(f)
    }

    open spec fn hmap_post(self, f: &Self::Fun, out: Vec<U>) -> bool {
        &&& out@.len() == self@.len()
        &&& forall|i: int| 0 <= i < self@.len() ==> self@[i].hmap_post(f, #[trigger] out@[i])
    }

    fn hmap(self, f: &Self::Fun) -> (out: Vec<U>)
        ensures
            <Vec<U> as View>::view(&out).len() == self@.len(),
    {
        let mut out: Vec<U> = Vec::new();
        for x in it: self.into_iter()
            invariant
                it.seq() == self@,
                out@.len() == it.index(),
                forall|i: int| 0 <= i < self@.len() ==> (#[trigger] self@[i]).hmap_pre(f),
                forall|i: int| 0 <= i < out@.len() ==> self@[i].hmap_post(f, #[trigger] out@[i]),
        {
            out.push(x.hmap(f));
        }
        out
    }
}

/// A mapped vector is as long as the vector it was mapped from.
pub proof fn lemma_hmap_vec_length<T: HMap<U>, U>(v: Vec<T>, f: &T::Fun, out: Vec<U>)
    requires
        <Vec<T> as HMap<Vec<U>>>::hmap_post(v, f, out),
    ensures
        out@.len() == v@.len(),
{
}

/// What a mapped vector holds at a position is decided by what the input
/// holds at that position: whatever else the input holds, and wherever in
/// another vector the same element stands, the results for it are the same.
pub proof fn lemma_hmap_vec_positional<T: HMap<U>, U>(
    v: Vec<T>,
    f: &T::Fun,
    out: Vec<U>,
    w: Vec<T>,
    i: int,
    j: int,
)
    requires
        <Vec<T> as HMap<Vec<U>>>::hmap_post(v, f, out),
        0 <= i < v@.len(),
        0 <= j < w@.len(),
        w@[j] == v@[i],
    ensures
        w@[j].hmap_post(f, out@[i]),
{
}

/// Where the function gives every element of a vector exactly one result, the
/// vector has exactly one mapping: two runs, whatever order they work in,
/// hold the same values at every position.
pub proof fn lemma_hmap_vec_single_valued<T: HMap<U>, U>(
    v: Vec<T>,
    f: &T::Fun,
    out1: Vec<U>,
    out2: Vec<U>,
)
    requires
        <Vec<T> as HMap<Vec<U>>>::hmap_post(v, f, out1),
        <Vec<T> as HMap<Vec<U>>>::hmap_post(v, f, out2),
        forall|i: int, a: U, b: U|
            0 <= i < v@.len() && (#[trigger] v@[i].hmap_post(f, a)) && (#[trigger] v@[i].hmap_post(
                f,
                b,
            )) ==> a == b,
    ensures
        out1@ == out2@,
{
    assert forall|i: int| 0 <= i < out1@.len() implies out1@[i] == out2@[i] by {
        assert(v@[i].hmap_post(f, out1@[i]));
        assert(v@[i].hmap_post(f, out2@[i]));
    }
    assert(out1@ =~= out2@);
}

/// A vector may be mapped as a whole or piece by piece: where `front` and
/// `back` are the mapped halves of a vector cut in two, their concatenation
/// is a mapping of the whole.
pub proof fn lemma_hmap_vec_by_parts<T: HMap<U>, U>(
    v: Vec<T>,
    f: &T::Fun,
    head: Vec<T>,
    tail: Vec<T>,
    front: Vec<U>,
    back: Vec<U>,
    out: Vec<U>,
)
    requires
        v@ == head@ + tail@,
        <Vec<T> as HMap<Vec<U>>>::hmap_post(head, f, front),
        <Vec<T> as HMap<Vec<U>>>::hmap_post(tail, f, back),
        out@ == front@ + back@,
    ensures
        <Vec<T> as HMap<Vec<U>>>::hmap_post(v, f, out),
{
    assert forall|i: int| 0 <= i < v@.len() implies v@[i].hmap_post(f, #[trigger] out@[i]) by {
        if i < head@.len() {
            assert(v@[i] == head@[i]);
            assert(out@[i] == front@[i]);
        } else {
            assert(v@[i] == tail@[i - head@.len()]);
            assert(out@[i] == back@[i - head@.len()]);
        }
    }
}

} // verus!
