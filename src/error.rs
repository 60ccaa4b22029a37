use vstd::prelude::*;

verus! {

/// The ways in which building, proving or checking a statement can fail.
#[derive(Clone, Copy, Debug, PartialEq, Eq, Structural)]
pub enum ZkError {
    /// A value was needed while evaluating a concrete instance, and none was supplied.
    AssignmentMissing,
    /// The public values handed to verification do not match the circuit's schema.
    MalformedPublicInput,
    /// The sponge parameters do not describe a usable permutation.
    InvalidSpongeParams,
    /// The number of attributes differs from the circuit's fixed schema.
    WrongAttributeCount,
    /// A field element's limbs spell an integer at or above the field order.
    NonCanonicalElement,
}

} // verus!
