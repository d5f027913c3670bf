//! Shared, immutable function values.
use std::sync::Arc;
use vstd::prelude::*;

verus! {

/// Something that can be invoked through a shared reference, from any thread.
///
/// `accepts` is the precondition of an invocation and `relates` its
/// postcondition: every output that `invoke` can hand back for `val`
/// satisfies `relates(val, out)`.
pub trait Callable<T, U>: Send + Sync {
    /// Whether the callable may be invoked on `val`.
    spec fn accepts(&self, val: T) -> bool;

    /// Whether `out` is a result of invoking the callable on `val`.
    spec fn relates(&self, val: T, out: U) -> bool;

    /// Invokes the callable on `val`.
    fn invoke(&self, val: T) -> (out: U)
        requires
            self.accepts(val),
        ensures
            self.relates(val, out),
    ;
}

/// Every thread-safe `Fn(T) -> U` is a callable, with its own precondition
/// and postcondition and nothing added to either.
impl<T, U, F: Fn(T) -> U + Send + Sync> Callable<T, U> for F {
    open spec fn accepts(&self, val: T) -> bool {
        self.requires((val,))
    }

    open spec fn relates(&self, val: T, out: U) -> bool {
        self.ensures((val,), out)
    }

    fn invoke(&self, val: T) -> (out: U) {
        self(val)
    }
}

/// For a plain function the callable adds nothing: it may be invoked exactly
/// where the function may be called, and hands back exactly what the function
/// returns.
pub proof fn lemma_fn_is_callable_as_is<T, U, G: Fn(T) -> U + Send + Sync>(g: &G, val: T, out: U)
    ensures
        g.accepts(val) <==> g.requires((val,)),
        g.relates(val, out) <==> g.ensures((val,), out),
{
}

/// Standard function type: a callable from `T` to `U` behind shared ownership.
///
/// A handle lives as long as any holder keeps it and is never mutated.
pub type Func<T, U> = Arc<dyn Callable<T, U>>;

} // verus!
