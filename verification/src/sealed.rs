//! Keeps the set of atomic types closed.

use vstd::prelude::*;
use crate::cell::ConsCell;

verus! {

/// Implemented for exactly the types that can be atoms. No other crate can
/// name this trait, so no other crate can add to them.
pub trait Sealed {

}

impl Sealed for bool {

}

impl Sealed for char {

}

impl Sealed for i64 {

}

impl Sealed for u64 {

}

impl Sealed for usize {

}

impl Sealed for String {

}

impl Sealed for ConsCell {

}

} // verus!
