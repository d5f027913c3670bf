//! The association between a value type and its function types, and the call
//! that turns a function of an argument back into a value.
use crate::func::{Callable, Func};
use vstd::prelude::*;

verus! {

/// Marks an argument type, so that the function type of `U` for an argument
/// of type `T` (`Ho<Arg<T>>`) cannot be confused with `U` taken as a plain
/// value (`Ho<()>`).
#[derive(Copy, Clone)]
pub struct Arg<T>(pub T);

/// Implemented by higher order types.
///
/// A higher order type might be a concrete value, or it might be a function
/// of some input. For each argument tag `T` the type has exactly one
/// associated function type: a second impl for the same tag does not compile.
pub trait Ho<T>: Sized {
    /// The function type.
    type Fun: Clone;
}

/// The function type of `U` for the argument tag `T`.
pub type Fun<T, U> = <U as Ho<T>>::Fun;

/// With no argument, every value is its own function type.
impl<T: Clone> Ho<()> for T {
    type Fun = T;
}

impl<T> Ho<Arg<T>> for u8 {
    type Fun = Func<T, u8>;
}

impl<T> Ho<Arg<T>> for u16 {
    type Fun = Func<T, u16>;
}

impl<T> Ho<Arg<T>> for u32 {
    type Fun = Func<T, u32>;
}

impl<T> Ho<Arg<T>> for u64 {
    type Fun = Func<T, u64>;
}

impl<T> Ho<Arg<T>> for usize {
    type Fun = Func<T, usize>;
}

impl<T> Ho<Arg<T>> for i8 {
    type Fun = Func<T, i8>;
}

impl<T> Ho<Arg<T>> for i16 {
    type Fun = Func<T, i16>;
}

impl<T> Ho<Arg<T>> for i32 {
    type Fun = Func<T, i32>;
}

impl<T> Ho<Arg<T>> for i64 {
    type Fun = Func<T, i64>;
}

impl<T> Ho<Arg<T>> for isize {
    type Fun = Func<T, isize>;
}

/// Implemented by higher order calls.
///
/// A type whose function type is a plain [`Func`] gets its call from the
/// blanket impl below. A composite type supplies its own: it calls every
/// field with the same argument and puts the results together, and says so
/// in `call_pre` and `call_post`. An impl that leaves the two as they are
/// must accept every argument and promises nothing about the value.
pub trait Call<T>: Ho<Arg<T>> {
    /// Whether `f` may be called with `val`.
    open spec fn call_pre(f: &Self::Fun, val: T) -> bool {
        true
    }

    /// Whether `out` is a value of `f` at `val`.
    open spec fn call_post(f: &Self::Fun, val: T, out: Self) -> bool {
        true
    }

    /// Calls function with some value.
    fn call(f: &Self::Fun, val: T) -> (out: Self)
        requires
            Self::call_pre(f, val),
        ensures
            Self::call_post(f, val, out),
    ;
}

/// The leaf rule: where the function type is a plain handle, calling it is
/// invoking the handle.
impl<T, U> Call<T> for U where U: Ho<Arg<T>, Fun = Func<T, Self>> {
    open spec fn call_pre(f: &Self::Fun, val: T) -> bool {
        f.accepts(val)
    }

    open spec fn call_post(f: &Self::Fun, val: T, out: Self) -> bool {
        f.relates(val, out)
    }

    fn call(f: &Self::Fun, val: T) -> (out: Self) {
        f.invoke(val)
    }
}

/// Identity law: the function type of any `V` for the unit tag is `V`, and a
/// value taken as its own function is that same value.
pub proof fn lemma_unit_function_is_value<V: Clone>(v: V)
    ensures
        ({
            let f: Fun<(), V> = v;
            f == v
        }),
{
}

/// Leaf law: for a type whose function type is a plain handle, the call has
/// the handle's precondition and the handle's results, no more and no fewer.
pub proof fn lemma_leaf_call_is_invoke<T, U: Ho<Arg<T>, Fun = Func<T, U>>>(
    f: &Func<T, U>,
    val: T,
    out: U,
)
    ensures
        <U as Call<T>>::call_pre(f, val) <==> f.accepts(val),
        <U as Call<T>>::call_post(f, val, out) <==> f.relates(val, out),
{
}

} // verus!
