//! The outside collaborators: the contract-class component's types, its
//! class hasher, and its conversion to the execution engine's compiled
//! class form.
//!
//! The class payload is opaque to this core: it is carried through and
//! handed to the collaborator's calls, never read.

use vstd::prelude::*;

use crate::felt::Felt;
use starknet_core::types::contract::legacy::LegacyContractClass;
use starknet_core::types::contract::{CompressProgramError, ComputeClassHashError};
use starknet_core::types::CompressedLegacyContractClass;

verus! {

#[verifier::external_type_specification]
#[verifier::external_body]
pub struct ExLegacyContractClass(LegacyContractClass);

#[verifier::external_type_specification]
#[verifier::external_body]
pub struct ExCompressedLegacyContractClass(CompressedLegacyContractClass);

#[verifier::external_type_specification]
#[verifier::external_body]
pub struct ExComputeClassHashError(ComputeClassHashError);

#[verifier::external_type_specification]
#[verifier::external_body]
pub struct ExCompressProgramError(CompressProgramError);

/// Whether the contract-class hasher accepts a class payload. Acceptance
/// is a deterministic function of the payload alone: the hasher walks the
/// payload's ordered maps and fails exactly on a builtin name too long for
/// a short string or on a payload its serialization refuses.
pub uninterp spec fn class_hash_ok(class: LegacyContractClass) -> bool;

/// The class hash the hasher computes for an accepted payload: a
/// deterministic function of the payload alone (ordered-map walks, Keccak
/// and Pedersen; no state, no randomness).
pub uninterp spec fn class_hash_of(class: LegacyContractClass) -> int;

/// Whether the class payload converts to the execution engine's compiled
/// form. The conversion — serialization plus compression at a fixed level —
/// succeeds or fails as a deterministic function of the payload alone.
pub uninterp spec fn compress_ok(class: LegacyContractClass) -> bool;

/// Relies on `LegacyContractClass::class_hash`: the Cairo-0 class-hash
/// computation owned by the contract-class component. It succeeds exactly
/// on the payloads the hasher accepts, returning their class hash — a
/// reduced field element; a malformed payload yields the component's own
/// error, returned unchanged.
#[verifier::external_body]
pub(crate) fn class_hash_exec(class: &LegacyContractClass) -> (r: Result<
    Felt,
    ComputeClassHashError,
>)
    ensures
        r is Ok <==> class_hash_ok(*class),
        r matches Ok(h) ==> h.wf() && h@ == class_hash_of(*class),
{
    match class.class_hash() {
        Ok(h) => {
            let b = h.to_bytes_be();
            Ok(Felt {
                hi: u128::from_be_bytes(b[..16].try_into().unwrap()),
                lo: u128::from_be_bytes(b[16..].try_into().unwrap()),
            })
        },
        Err(e) => Err(e),
    }
}

/// Relies on `LegacyContractClass::compress`: the conversion of a source
/// class payload into the execution engine's compiled representation. It
/// succeeds exactly on the payloads that convert, and fails — with the
/// component's own error — when the payload cannot be serialized or
/// compressed.
#[verifier::external_body]
pub(crate) fn compress_exec(class: &LegacyContractClass) -> (r: Result<
    CompressedLegacyContractClass,
    CompressProgramError,
>)
    ensures
        r is Ok <==> compress_ok(*class),
{
    class.compress()
}

} // verus!
