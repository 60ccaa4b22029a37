//! Zero-knowledge proof that a prover holds four attributes whose Poseidon digest is a
//! public commitment and whose second attribute is a public identifier.
//!
//! `field` encodes attributes as elements of BN254's scalar field, `sponge` commits to
//! them, `constraints` is the builder of equality constraints, `circuit` defines the
//! statement over it, and `protocol` prepares statements and checks public inputs for
//! the Groth16 backend that drives setup, proving and verification.

pub mod circuit;
pub mod constraints;
pub mod error;
pub mod field;
pub mod protocol;
pub mod sponge;
