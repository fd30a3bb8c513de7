use vstd::prelude::*;
use generic_array::typenum::bit::{B0, B1};
use generic_array::typenum::uint::{UInt, UTerm};

verus! {

/// Closes `TypeLength` to other crates: this module is private, so that only
/// the types below can stand for a length.
pub trait Closed {
}

impl Closed for UTerm {
}

impl<U: Closed> Closed for UInt<U, B0> {
}

impl<U: Closed> Closed for UInt<U, B1> {
}

} // verus!
