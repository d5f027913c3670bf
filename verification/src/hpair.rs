//! Higher order pairing: a pair of structures becomes a structure of pairs.
use crate::moves::{array_into_vec, reversed, take_last};
use vstd::prelude::*;

verus! {

/// Higher order pairing.
///
/// A higher order pairing is used to pair up components of a pair of data
/// structures. This is used before binary higher order maps of the type
/// `f : (T, T) -> U`.
///
/// The two structures are expected to have the same shape. For arrays the
/// types see to that. For vectors of different lengths the pairing stops at
/// the end of the shorter one: what the longer one holds beyond that is
/// dropped, and no error is raised.
pub trait HPair {
    /// Output type.
    type Out;

    /// Whether `out` is the pairing of `self`.
    spec fn pairs_to(self, out: Self::Out) -> bool;

    /// Returns the higher order transposed value.
    fn hpair(self) -> (out: Self::Out)
        ensures
            self.pairs_to(out),
    ;
}

impl HPair for (u8, u8) {
    type Out = Self;

    open spec fn pairs_to(self, out: Self) -> bool {
        out == self
    }

    fn hpair(self) -> (out: Self)
        ensures
            out == self,
    {
        self
    }
}

impl HPair for (u16, u16) {
    type Out = Self;

    open spec fn pairs_to(self, out: Self) -> bool {
        out == self
    }

    fn hpair(self) -> (out: Self)
        ensures
            out == self,
    {
        self
    }
}

impl HPair for (u32, u32) {
    type Out = Self;

    open spec fn pairs_to(self, out: Self) -> bool {
        out == self
    }

    fn hpair(self) -> (out: Self)
        ensures
            out == self,
    {
        self
    }
}

impl HPair for (u64, u64) {
    type Out = Self;

    open spec fn pairs_to(self, out: Self) -> bool {
        out == self
    }

    fn hpair(self) -> (out: Self)
        ensures
            out == self,
    {
        self
    }
}

impl HPair for (usize, usize) {
    type Out = Self;

    open spec fn pairs_to(self, out: Self) -> bool {
        out == self
    }

    fn hpair(self) -> (out: Self)
        ensures
            out == self,
    {
        self
    }
}

impl HPair for (i8, i8) {
    type Out = Self;

    open spec fn pairs_to(self, out: Self) -> bool {
        out == self
    }

    fn hpair(self) -> (out: Self)
        ensures
            out == self,
    {
        self
    }
}

impl HPair for (i16, i16) {
    type Out = Self;

    open spec fn pairs_to(self, out: Self) -> bool {
        out == self
    }

    fn hpair(self) -> (out: Self)
        ensures
            out == self,
    {
        self
    }
}

impl HPair for (i32, i32) {
    type Out = Self;

    open spec fn pairs_to(self, out: Self) -> bool {
        out == self
    }

    fn hpair(self) -> (out: Self)
        ensures
            out == self,
    {
        self
    }
}

impl HPair for (i64, i64) {
    type Out = Self;

    open spec fn pairs_to(self, out: Self) -> bool {
        out == self
    }

    fn hpair(self) -> (out: Self)
        ensures
            out == self,
    {
        self
    }
}

impl HPair for (isize, isize) {
    type Out = Self;

    open spec fn pairs_to(self, out: Self) -> bool {
        out == self
    }

    fn hpair(self) -> (out: Self)
        ensures
            out == self,
    {
        self
    }
}

impl<T> HPair for ([T; 2], [T; 2]) where (T, T): HPair {
    type Out = [<(T, T) as HPair>::Out; 2];

    open spec fn pairs_to(self, out: Self::Out) -> bool {
        forall|i: int| 0 <= i < 2 ==> (self.0[i], self.1[i]).pairs_to(#[trigger] out[i])
    }

    fn hpair(self) -> (out: Self::Out)
        ensures
            forall|i: int| 0 <= i < 2 ==> (self.0[i], self.1[i]).pairs_to(#[trigger] out[i]),
    {
        let (left, right) = self;
        let mut left = array_into_vec(left);
        let mut right = array_into_vec(right);
        let b = take_last(&mut left);
        let a = take_last(&mut left);
        let d = take_last(&mut right);
        let c = take_last(&mut right);
        [(a, c).hpair(), (b, d).hpair()]
    }
}

impl<T> HPair for ([T; 3], [T; 3]) where (T, T): HPair {
    type Out = [<(T, T) as HPair>::Out; 3];

    open spec fn pairs_to(self, out: Self::Out) -> bool {
        forall|i: int| 0 <= i < 3 ==> (self.0[i], self.1[i]).pairs_to(#[trigger] out[i])
    }

    fn hpair(self) -> (out: Self::Out)
        ensures
            forall|i: int| 0 <= i < 3 ==> (self.0[i], self.1[i]).pairs_to(#[trigger] out[i]),
    {
        let (left, right) = self;
        let mut left = array_into_vec(left);
        let mut right = array_into_vec(right);
        let c = take_last(&mut left);
        let b = take_last(&mut left);
        let a = take_last(&mut left);
        let f = take_last(&mut right);
        let e = take_last(&mut right);
        let d = take_last(&mut right);
        [(a, d).hpair(), (b, e).hpair(), (c, f).hpair()]
    }
}

impl<T> HPair for ([T; 4], [T; 4]) where (T, T): HPair {
    type Out = [<(T, T) as HPair>::Out; 4];

    open spec fn pairs_to(self, out: Self::Out) -> bool {
        forall|i: int| 0 <= i < 4 ==> (self.0[i], self.1[i]).pairs_to(#[trigger] out[i])
    }

    fn hpair(self) -> (out: Self::Out)
        ensures
            forall|i: int| 0 <= i < 4 ==> (self.0[i], self.1[i]).pairs_to(#[trigger] out[i]),
    {
        let (left, right) = self;
        let mut left = array_into_vec(left);
        let mut right = array_into_vec(right);
        let d = take_last(&mut left);
        let c = take_last(&mut left);
        let b = take_last(&mut left);
        let a = take_last(&mut left);
        let h = take_last(&mut right);
        let g = take_last(&mut right);
        let f = take_last(&mut right);
        let e = take_last(&mut right);
        [
            (a, e).hpair(),
            (b, f).hpair(),
            (c, g).hpair(),
            (d, h).hpair(),
        ]
    }
}

impl<T> HPair for ([T; 5], [T; 5]) where (T, T): HPair {
    type Out = [<(T, T) as HPair>::Out; 5];

    open spec fn pairs_to(self, out: Self::Out) -> bool {
        forall|i: int| 0 <= i < 5 ==> (self.0[i], self.1[i]).pairs_to(#[trigger] out[i])
    }

    fn hpair(self) -> (out: Self::Out)
        ensures
            forall|i: int| 0 <= i < 5 ==> (self.0[i], self.1[i]).pairs_to(#[trigger] out[i]),
    {
        let (left, right) = self;
        let mut left = array_into_vec(left);
        let mut right = array_into_vec(right);
        let e = take_last(&mut left);
        let d = take_last(&mut left);
        let c = take_last(&mut left);
        let b = take_last(&mut left);
        let a = take_last(&mut left);
        let j = take_last(&mut right);
        let i = take_last(&mut right);
        let h = take_last(&mut right);
        let g = take_last(&mut right);
        let f = take_last(&mut right);
        [
            (a, f).hpair(),
            (b, g).hpair(),
            (c, h).hpair(),
            (d, i).hpair(),
            (e, j).hpair(),
        ]
    }
}

impl<T> HPair for ([T; 6], [T; 6]) where (T, T): HPair {
    type Out = [<(T, T) as HPair>::Out; 6];

    open spec fn pairs_to(self, out: Self::Out) -> bool {
        forall|i: int| 0 <= i < 6 ==> (self.0[i], self.1[i]).pairs_to(#[trigger] out[i])
    }

    fn hpair(self) -> (out: Self::Out)
        ensures
            forall|i: int| 0 <= i < 6 ==> (self.0[i], self.1[i]).pairs_to(#[trigger] out[i]),
    {
        let (left, right) = self;
        let mut left = array_into_vec(left);
        let mut right = array_into_vec(right);
        let f = take_last(&mut left);
        let e = take_last(&mut left);
        let d = take_last(&mut left);
        let c = take_last(&mut left);
        let b = take_last(&mut left);
        let a = take_last(&mut left);
        let l = take_last(&mut right);
        let k = take_last(&mut right);
        let j = take_last(&mut right);
        let i = take_last(&mut right);
        let h = take_last(&mut right);
        let g = take_last(&mut right);
        [
            (a, g).hpair(),
            (b, h).hpair(),
            (c, i).hpair(),
            (d, j).hpair(),
            (e, k).hpair(),
            (f, l).hpair(),
        ]
    }
}

impl<T> HPair for (Vec<T>, Vec<T>) where (T, T): HPair {
    type Out = Vec<<(T, T) as HPair>::Out>;

    open spec fn pairs_to(self, out: Self::Out) -> bool {
        &&& out@.len() == shorter(self.0@.len(), self.1@.len())
        &&& forall|i: int|
            0 <= i < out@.len() ==> (self.0@[i], self.1@[i]).pairs_to(#[trigger] out@[i])
    }

    fn hpair(self) -> (out: Self::Out)
        ensures
            out@.len() == shorter(self.0@.len(), self.1@.len()),
            forall|i: int|
                0 <= i < out@.len() ==> (self.0@[i], self.1@[i]).pairs_to(#[trigger] out@[i]),
    {
        let (left, right) = self;
        let mut out: Vec<<(T, T) as HPair>::Out> = Vec::new();
        let mut rest = reversed(right);
        for x in it: left.into_iter()
            invariant
                it.seq() == left@,
                out@.len() <= it.index(),
                out@.len() + rest@.len() == right@.len(),
                out@.len() < it.index() ==> rest@.len() == 0,
                rest@ == right@.reverse().take(rest@.len() as int),
                forall|i: int|
                    0 <= i < out@.len() ==> (left@[i], right@[i]).pairs_to(#[trigger] out@[i]),
        {
            match rest.pop() {
                Some(y) => {
                    out.push((x, y).hpair());
                },
                None => {},
            }
        }
        out
    }
}

/// The smaller of two lengths.
pub open spec fn shorter(m: nat, n: nat) -> nat {
    if m <= n {
        m
    } else {
        n
    }
}

/// The pairing of two vectors is as long as the shorter of them, so for two
/// vectors of one length it keeps that length.
pub proof fn lemma_hpair_vec_length<T>(
    left: Vec<T>,
    right: Vec<T>,
    out: Vec<<(T, T) as HPair>::Out>,
) where (T, T): HPair
    requires
        (left, right).pairs_to(out),
    ensures
        out@.len() <= left@.len(),
        out@.len() <= right@.len(),
        out@.len() == left@.len() || out@.len() == right@.len(),
        left@.len() == right@.len() ==> out@.len() == left@.len(),
{
}

/// Where every pair of elements has exactly one pairing, two vectors have
/// exactly one pairing: two runs hold the same values at every position.
pub proof fn lemma_hpair_vec_single_valued<T>(
    left: Vec<T>,
    right: Vec<T>,
    out1: Vec<<(T, T) as HPair>::Out>,
    out2: Vec<<(T, T) as HPair>::Out>,
) where (T, T): HPair
    requires
        (left, right).pairs_to(out1),
        (left, right).pairs_to(out2),
        forall|p: (T, T), a: <(T, T) as HPair>::Out, b: <(T, T) as HPair>::Out|
            (#[trigger] p.pairs_to(a)) && (#[trigger] p.pairs_to(b)) ==> a == b,
    ensures
        out1@ == out2@,
{
    assert forall|i: int| 0 <= i < out1@.len() implies out1@[i] == out2@[i] by {
        assert((left@[i], right@[i]).pairs_to(out1@[i]));
        assert((left@[i], right@[i]).pairs_to(out2@[i]));
    }
    assert(out1@ =~= out2@);
}

/// What the pairing of two vectors holds at a position is decided by what the
/// two vectors hold at that position: a second pair of vectors that agrees
/// with the first there has there the same pairings.
pub proof fn lemma_hpair_vec_positional<T>(
    left: Vec<T>,
    right: Vec<T>,
    out: Vec<<(T, T) as HPair>::Out>,
    left2: Vec<T>,
    right2: Vec<T>,
    i: int,
    j: int,
) where (T, T): HPair
    requires
        (left, right).pairs_to(out),
        0 <= i < out@.len(),
        0 <= j < left2@.len(),
        j < right2@.len(),
        left2@[j] == left@[i],
        right2@[j] == right@[i],
    ensures
        (left2@[j], right2@[j]).pairs_to(out@[i]),
{
}

} // verus!
