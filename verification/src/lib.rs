//! Higher order data structures.
//!
//! A higher order type is either a plain value or a function of some argument
//! that yields that value. Every participating type `U` has, for each argument
//! type `T`, one function type [`Fun<Arg<T>, U>`](Fun); for the unit argument
//! the function type is `U` itself.
//!
//! On top of that association the crate offers two traversals that work over
//! leaves, arrays of two to six elements and vectors, nested to any depth:
//! [`HPair`] turns a pair of structures into a structure of pairs, and
//! [`HMap`] applies one shared function to every leaf of a structure.
//!
//! Floating-point leaves are not part of this crate; a float can travel through
//! the traversals as its bit pattern in an unsigned integer.
pub mod func;
pub mod ho;
pub mod hmap;
pub mod hpair;
mod moves;

pub use func::{Callable, Func};
pub use ho::{Arg, Call, Fun, Ho};
pub use hmap::HMap;
pub use hpair::HPair;
