//! The version policy validator.
//!
//! The covered family is the declare v0/v1 family: plain versions zero and
//! one, and their query variants, which carry an offset of `2^128` in the
//! version field. The structural rules are: a fee-paying version — the
//! plain, non-query version one — must come with a non-empty signature,
//! and the nonce must be representable at its expected width, that is, be
//! a well-formed field element. The width of `max_fee` is enforced by its
//! type, a 128-bit unsigned integer.

use vstd::prelude::*;

use crate::error::{Error, PolicyField};
use crate::felt::Felt;

verus! {

/// The version lies in the covered family: zero or one, plain or with the
/// query offset `2^128` (the `hi` limb carrying exactly that offset).
pub open spec fn version_in_family(v: Felt) -> bool {
    (v.hi == 0 || v.hi == 1) && (v.lo == 0 || v.lo == 1)
}

/// A fee-paying version: the plain (non-query) version one.
pub open spec fn is_fee_paying(v: Felt) -> bool {
    v.hi == 0 && v.lo == 1
}

/// The first field violating the structural rules of the covered version
/// family — the version itself, a nonce out of the field, an empty
/// signature on a fee-paying version — or `None` when the combination is
/// well-formed.
pub open spec fn policy_fault(version: Felt, nonce: Felt, signature: Seq<Felt>) -> Option<
    PolicyField,
> {
    if !version_in_family(version) {
        Some(PolicyField::Version)
    } else if !nonce.wf() {
        Some(PolicyField::Nonce)
    } else if is_fee_paying(version) && signature.len() == 0 {
        Some(PolicyField::Signature)
    } else {
        None
    }
}

/// Confirms that (version, max_fee, nonce, signature) is well-formed for
/// the declared version family: succeeds silently exactly when no
/// structural rule is violated, and otherwise reports the field at fault.
///
/// The width rule on `max_fee` holds by its type, a 128-bit unsigned
/// integer; the nonce's width is checked here.
#[allow(unused_variables)]
pub fn verify_version(version: &Felt, max_fee: u128, nonce: &Felt, signature: &Vec<Felt>) -> (r:
    Result<(), Error>)
    ensures
        r is Ok <==> policy_fault(*version, *nonce, signature@) is None,
        r matches Err(e) ==> (e matches Error::VersionMismatch(f) && policy_fault(
            *version,
            *nonce,
            signature@,
        ) == Some(f)),
{
    if !((version.hi == 0 || version.hi == 1) && (version.lo == 0 || version.lo == 1)) {
        return Err(Error::VersionMismatch(PolicyField::Version));
    }
    if !nonce.is_wf() {
        return Err(Error::VersionMismatch(PolicyField::Nonce));
    }
    if version.hi == 0 && version.lo == 1 && signature.len() == 0 {
        return Err(Error::VersionMismatch(PolicyField::Signature));
    }
    Ok(())
}

/// Version gating: on a fee-paying version an empty signature is refused
/// and any non-empty signature passes, the other rules being met.
pub proof fn lemma_version_gating(version: Felt, nonce: Felt, empty_sig: Seq<Felt>, sig: Seq<Felt>)
    requires
        is_fee_paying(version),
        nonce.wf(),
        empty_sig.len() == 0,
        sig.len() > 0,
    ensures
        policy_fault(version, nonce, empty_sig) == Some(PolicyField::Signature),
        policy_fault(version, nonce, sig) is None,
{
}

} // verus!
