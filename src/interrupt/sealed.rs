//! Sealed trait pattern: the handler traits can not be implemented outside
//! this crate.
use vstd::prelude::*;

verus! {

/// Implemented for the types that may serve as interrupt handlers.
pub trait Sealed {
}

} // verus!
