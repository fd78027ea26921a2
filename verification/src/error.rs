//! Error kinds of the declare pipeline.
//!
//! Every failure aborts construction of the execution-ready declare and is
//! returned synchronously to the caller; nothing is retried or swallowed.

use vstd::prelude::*;

use starknet_core::types::contract::{CompressProgramError, ComputeClassHashError};

verus! {

/// The record field that violated the version policy.
#[derive(Clone, Copy, Debug, PartialEq, Eq, Structural)]
pub enum PolicyField {
    /// The declared version is outside the covered family.
    Version,
    /// The nonce is not representable at its expected width: not a
    /// well-formed field element.
    Nonce,
    /// The signature is empty on a fee-paying version.
    Signature,
}

/// What can go wrong between a broadcasted declare record and its
/// execution-ready form.
#[derive(Debug)]
pub enum Error {
    /// A structural rule of the declared version family is violated; names
    /// the field at fault.
    VersionMismatch(PolicyField),
    /// The source class payload cannot be converted to the execution
    /// engine's compiled form.
    ClassConversion(CompressProgramError),
    /// The contract-class hasher rejected the class payload; its error is
    /// propagated unchanged.
    ClassHash(ComputeClassHashError),
}

} // verus!
