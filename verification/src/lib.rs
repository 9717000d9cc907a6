//! A dynamically typed value for interpreters in the Lisp family: empty, an
//! opaque atom of some concrete type, or a reference to a mutable pair cell.
//!
//! Pair cells live in a [`Heap`] and are named by [`ConsCell`] references, so
//! lists may share structure and may be cyclic. Atoms own their payload behind
//! an [`ErasedHandle`], from which the concrete type is recovered only after
//! its type tag has been compared.

pub mod atom;
pub mod cell;
pub mod heap;
pub mod laws;
mod sealed;
pub mod trace;
pub mod value;

pub use atom::{Atomic, ErasedHandle, TypeTag};
pub use cell::ConsCell;
pub use heap::{ConsCellData, Heap};
pub use value::{atom, cons, nil, Value};
