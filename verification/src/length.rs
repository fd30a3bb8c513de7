use vstd::prelude::*;
use generic_array::typenum::bit::{B0, B1};
use generic_array::typenum::uint::{UInt, UTerm};
use crate::sealed::Closed;

verus! {

/// `typenum`'s `UTerm`, the type that stands for zero. It is carried as a
/// type only; no value of it is ever read.
#[verifier::external_type_specification]
#[verifier::external_body]
pub struct ExUTerm(UTerm);

/// `typenum`'s `B0`, the type that stands for the bit zero.
#[verifier::external_type_specification]
#[verifier::external_body]
pub struct ExB0(B0);

/// `typenum`'s `B1`, the type that stands for the bit one.
#[verifier::external_type_specification]
#[verifier::external_body]
pub struct ExB1(B1);

/// `typenum`'s `UInt<U, B>`, the type that stands for the number whose
/// lowest bit is `B` and whose other bits are the number `U`.
#[verifier::external_type_specification]
#[verifier::external_body]
#[verifier::reject_recursive_types(U)]
#[verifier::reject_recursive_types(B)]
pub struct ExUInt<U, B>(UInt<U, B>);

/// A type that stands for an unsigned number, as the types of `typenum` do
/// that give a `GenericArray` its length. It is implemented for those types
/// and cannot be implemented for others.
pub trait TypeLength: Closed {
    /// The number that the type stands for.
    spec fn length() -> nat;
}

impl TypeLength for UTerm {
    open spec fn length() -> nat {
        0
    }
}

impl<U: TypeLength> TypeLength for UInt<U, B0> {
    open spec fn length() -> nat {
        2 * U::length()
    }
}

impl<U: TypeLength> TypeLength for UInt<U, B1> {
    open spec fn length() -> nat {
        2 * U::length() + 1
    }
}

} // verus!
