//! The broadcasted declare record, its derived artifacts, and the
//! execution-ready declare assembled from them.
//!
//! A broadcasted record is a value: every field is set at construction and
//! never mutated. Its two derived artifacts — the class hash, a function of
//! the class payload alone, and the transaction hash, a function of the
//! version, sender, fee, nonce, class hash and chain identifier (never of
//! the signature) — are computed on demand and handed back to the caller.
//! The execution-ready [`Declare`] is assembled only once both artifacts
//! are known and the version policy has passed.

use vstd::prelude::*;

use crate::error::Error;
use crate::external::{class_hash_exec, class_hash_of, class_hash_ok, compress_exec, compress_ok};
use crate::felt::{lemma_wf_limbs, views_of, Felt};
use crate::hash::{
    compute_hash_on_elements, declare_v1_hash_input, declare_v1_tx_hash, all_wf, DECLARE_PREFIX,
};
use crate::version::{policy_fault, verify_version};
use starknet_core::types::contract::legacy::LegacyContractClass;
use starknet_core::types::CompressedLegacyContractClass;

verus! {

/// Upper limb of the selector of the validation entry point run for a
/// declare transaction.
pub const VALIDATE_DECLARE_SELECTOR_HI: u128 = 0x289da278a8dc833409cabfdad1581e8;

/// Lower limb of the selector of the validation entry point run for a
/// declare transaction.
pub const VALIDATE_DECLARE_SELECTOR_LO: u128 = 0xe7d40e42dcaed693fa4008dcdb4963b3;

/// The selector of the validation entry point for declare transactions, as
/// a well-formed field element.
pub fn validate_declare_selector() -> (r: Felt)
    ensures
        r.wf(),
        r.hi == VALIDATE_DECLARE_SELECTOR_HI,
        r.lo == VALIDATE_DECLARE_SELECTOR_LO,
{
    proof {
        lemma_wf_limbs(VALIDATE_DECLARE_SELECTOR_HI, VALIDATE_DECLARE_SELECTOR_LO);
    }
    Felt { hi: VALIDATE_DECLARE_SELECTOR_HI, lo: VALIDATE_DECLARE_SELECTOR_LO }
}

/// The fields every broadcasted transaction carries besides its own.
pub struct BroadcastedTransactionCommon {
    /// Upper bound the sender authorizes to pay.
    pub max_fee: u128,
    /// Transaction-format version identifier.
    pub version: Felt,
    /// Ordered signature; opaque here but for emptiness checks.
    pub signature: Vec<Felt>,
    /// Per-account replay-protection counter.
    pub nonce: Felt,
}

/// A client's broadcasted request to register a contract class.
pub struct BroadcastedDeclareTransactionV1 {
    /// The version-independent fields.
    pub common: BroadcastedTransactionCommon,
    /// The class payload in source form; opaque to this core.
    pub contract_class: LegacyContractClass,
    /// The account authorizing the declaration.
    pub sender_address: Felt,
}

/// The declare transaction in the form this core hands to its callers once
/// both derived hashes are known.
pub struct DeclareTransactionV0V1 {
    /// Hash of the declared class.
    pub class_hash: Felt,
    /// The account authorizing the declaration.
    pub sender_address: Felt,
    /// Per-account replay-protection counter.
    pub nonce: Felt,
    /// Upper bound the sender authorizes to pay.
    pub max_fee: u128,
    /// Transaction-format version identifier.
    pub version: Felt,
    /// The canonical, chain-binding transaction hash.
    pub transaction_hash: Felt,
    /// Ordered signature of the transaction.
    pub signature: Vec<Felt>,
}

/// The execution-ready declare: the only representation the execution
/// engine accepts. Created once, consumed read-only.
pub struct Declare {
    /// Hash of the declared class.
    pub class_hash: Felt,
    /// The account authorizing the declaration.
    pub sender_address: Felt,
    /// Selector of the validation entry point to run.
    pub validate_entry_point_selector: Felt,
    /// Transaction-format version identifier.
    pub version: Felt,
    /// Upper bound the sender authorizes to pay.
    pub max_fee: u128,
    /// Ordered signature of the transaction.
    pub signature: Vec<Felt>,
    /// Per-account replay-protection counter.
    pub nonce: Felt,
    /// The canonical, chain-binding transaction hash.
    pub hash_value: Felt,
    /// The class payload in the engine's compiled form.
    pub contract_class: CompressedLegacyContractClass,
}

/// The transaction hash a record determines, given a class hash and a
/// chain identifier: a function of six inputs and of nothing else.
pub open spec fn spec_transaction_hash(
    r: BroadcastedDeclareTransactionV1,
    class_hash: Felt,
    chain_id: Felt,
) -> int {
    declare_v1_tx_hash(
        r.common.version@,
        r.sender_address@,
        r.common.max_fee as int,
        r.common.nonce@,
        class_hash@,
        chain_id@,
    )
}

impl BroadcastedDeclareTransactionV1 {
    /// The numeric fields of the record are well-formed field elements.
    pub open spec fn wf(self) -> bool {
        &&& self.sender_address.wf()
        &&& self.common.version.wf()
        &&& self.common.nonce.wf()
        &&& all_wf(self.common.signature@)
    }

    /// Builds the record; every field is taken verbatim and never mutated
    /// afterwards.
    pub fn new(
        sender_address: Felt,
        max_fee: u128,
        signature: Vec<Felt>,
        nonce: Felt,
        contract_class: LegacyContractClass,
        version: Felt,
    ) -> (r: Self)
        ensures
            r.sender_address == sender_address,
            r.common.max_fee == max_fee,
            r.common.signature == signature,
            r.common.nonce == nonce,
            r.contract_class == contract_class,
            r.common.version == version,
    {
        BroadcastedDeclareTransactionV1 {
            sender_address,
            contract_class,
            common: BroadcastedTransactionCommon { max_fee, nonce, version, signature },
        }
    }

    /// Copies the record's fields, verbatim, next to the two derived
    /// hashes.
    pub fn create_declare(&self, class_hash: Felt, transaction_hash: Felt) -> (r:
        DeclareTransactionV0V1)
        ensures
            r.class_hash == class_hash,
            r.sender_address == self.sender_address,
            r.nonce == self.common.nonce,
            r.max_fee == self.common.max_fee,
            r.version == self.common.version,
            r.transaction_hash == transaction_hash,
            r.signature@ == self.common.signature@,
    {
        DeclareTransactionV0V1 {
            class_hash,
            sender_address: self.sender_address,
            nonce: self.common.nonce,
            max_fee: self.common.max_fee,
            version: self.common.version,
            transaction_hash,
            signature: clone_signature(&self.common.signature),
        }
    }

    /// Delegates to the contract-class hasher on the record's class
    /// payload: it succeeds exactly on the payloads the hasher accepts,
    /// returning their class hash — a well-formed field element, a
    /// function of the payload alone — and otherwise propagates the
    /// hasher's failure unchanged. Nothing is cached: repeated calls
    /// recompute, and agree.
    pub fn generate_class_hash(&self) -> (r: Result<Felt, Error>)
        ensures
            r is Ok <==> class_hash_ok(self.contract_class),
            r matches Ok(h) ==> h.wf() && h@ == class_hash_of(self.contract_class),
            r matches Err(e) ==> e matches Error::ClassHash(_),
    {
        match class_hash_exec(&self.contract_class) {
            Ok(h) => Ok(h),
            Err(e) => Err(Error::ClassHash(e)),
        }
    }

    /// The canonical, chain-binding transaction hash of the record: the
    /// domain-separated hash over the protocol's fixed operand order.
    /// A pure function of the version, sender, fee, nonce, class hash and
    /// chain identifier — never of the signature.
    pub fn calculate_transaction_hash(&self, chain_id: &Felt, class_hash: &Felt) -> (r: Felt)
        requires
            self.common.version.wf(),
            self.sender_address.wf(),
            self.common.nonce.wf(),
            chain_id.wf(),
            class_hash.wf(),
        ensures
            r.wf(),
            r@ == spec_transaction_hash(*self, *class_hash, *chain_id),
    {
        let mut calldata: Vec<Felt> = Vec::new();
        calldata.push(*class_hash);
        proof {
            assert(views_of(calldata@) =~= seq![class_hash@]);
        }
        let calldata_hash = compute_hash_on_elements(&calldata);
        let mut data: Vec<Felt> = Vec::new();
        data.push(Felt::from_u128(DECLARE_PREFIX as u128));
        data.push(self.common.version);
        data.push(self.sender_address);
        data.push(Felt::zero());
        data.push(calldata_hash);
        data.push(Felt::from_u128(self.common.max_fee));
        data.push(*chain_id);
        data.push(self.common.nonce);
        proof {
            assert(all_wf(data@));
            assert(views_of(data@) =~= declare_v1_hash_input(
                self.common.version@,
                self.sender_address@,
                self.common.max_fee as int,
                self.common.nonce@,
                class_hash@,
                chain_id@,
            ));
        }
        compute_hash_on_elements(&data)
    }

    /// Converts the class payload to the engine's compiled form, then
    /// assembles the execution-ready declare, the version policy standing
    /// as the final gate: it succeeds exactly when the payload converts
    /// and the policy holds. A payload that does not convert is refused as
    /// a conversion failure — even where the policy would also reject —
    /// and a policy violation on a convertible payload names the field at
    /// fault. On any failure no object is produced.
    pub fn create_sir_declare(&self, class_hash: Felt, transaction_hash: Felt) -> (r: Result<
        Declare,
        Error,
    >)
        ensures
            r is Ok <==> (compress_ok(self.contract_class) && policy_fault(
                self.common.version,
                self.common.nonce,
                self.common.signature@,
            ) is None),
            r matches Ok(d) ==> declare_fields_match(d, *self, class_hash, transaction_hash),
            (r matches Err(Error::ClassConversion(_))) <==> !compress_ok(self.contract_class),
            r matches Err(Error::VersionMismatch(f)) ==> (compress_ok(self.contract_class)
                && policy_fault(self.common.version, self.common.nonce, self.common.signature@)
                == Some(f)),
            r matches Err(e) ==> (e matches Error::VersionMismatch(_) || e matches
                Error::ClassConversion(_)),
    {
        let compiled = match compress_exec(&self.contract_class) {
            Ok(c) => c,
            Err(e) => {
                return Err(Error::ClassConversion(e));
            },
        };
        assemble_declare(self, class_hash, transaction_hash, compiled)
    }
}

/// The execution-ready declare carries the record's fields verbatim, the
/// two derived hashes, and the declare validation selector.
pub open spec fn declare_fields_match(
    d: Declare,
    r: BroadcastedDeclareTransactionV1,
    class_hash: Felt,
    transaction_hash: Felt,
) -> bool {
    &&& d.class_hash == class_hash
    &&& d.sender_address == r.sender_address
    &&& d.validate_entry_point_selector.hi == VALIDATE_DECLARE_SELECTOR_HI
    &&& d.validate_entry_point_selector.lo == VALIDATE_DECLARE_SELECTOR_LO
    &&& d.version == r.common.version
    &&& d.max_fee == r.common.max_fee
    &&& d.signature@ == r.common.signature@
    &&& d.nonce == r.common.nonce
    &&& d.hash_value == transaction_hash
}

/// Assembles the execution-ready declare from the record, the two derived
/// hashes and the already-compiled class: succeeds exactly when the
/// version policy holds of the record, copying every field verbatim; on a
/// policy violation it produces no object and names the field at fault.
pub fn assemble_declare(
    record: &BroadcastedDeclareTransactionV1,
    class_hash: Felt,
    transaction_hash: Felt,
    compiled: CompressedLegacyContractClass,
) -> (r: Result<Declare, Error>)
    ensures
        r is Ok <==> policy_fault(
            record.common.version,
            record.common.nonce,
            record.common.signature@,
        ) is None,
        r matches Ok(d) ==> {
            &&& declare_fields_match(d, *record, class_hash, transaction_hash)
            &&& d.contract_class == compiled
        },
        r matches Err(e) ==> (e matches Error::VersionMismatch(f) && policy_fault(
            record.common.version,
            record.common.nonce,
            record.common.signature@,
        ) == Some(f)),
{
    match verify_version(
        &record.common.version,
        record.common.max_fee,
        &record.common.nonce,
        &record.common.signature,
    ) {
        Err(e) => Err(e),
        Ok(()) => Ok(
            Declare {
                class_hash,
                sender_address: record.sender_address,
                validate_entry_point_selector: validate_declare_selector(),
                version: record.common.version,
                max_fee: record.common.max_fee,
                signature: clone_signature(&record.common.signature),
                nonce: record.common.nonce,
                hash_value: transaction_hash,
                contract_class: compiled,
            },
        ),
    }
}

/// A verbatim copy of a signature: same elements, same order.
fn clone_signature(sig: &Vec<Felt>) -> (r: Vec<Felt>)
    ensures
        r@ == sig@,
{
    let mut r: Vec<Felt> = Vec::new();
    let mut i: usize = 0;
    while i < sig.len()
        invariant
            0 <= i <= sig.len(),
            r@ == sig@.take(i as int),
        decreases sig.len() - i,
    {
        r.push(sig[i]);
        proof {
            assert(sig@.take(i + 1) =~= sig@.take(i as int).push(sig@[i as int]));
        }
        i = i + 1;
    }
    proof {
        assert(sig@.take(sig@.len() as int) =~= sig@);
    }
    r
}

/// Determinism: the transaction hash is a function of the version, sender,
/// fee, nonce, class hash and chain identifier alone — two records
/// agreeing on those fields determine the same hash, on every computation.
pub proof fn lemma_hash_determinism(
    r1: BroadcastedDeclareTransactionV1,
    r2: BroadcastedDeclareTransactionV1,
    class_hash: Felt,
    chain_id: Felt,
)
    requires
        r1.common.version@ == r2.common.version@,
        r1.sender_address@ == r2.sender_address@,
        r1.common.max_fee == r2.common.max_fee,
        r1.common.nonce@ == r2.common.nonce@,
    ensures
        spec_transaction_hash(r1, class_hash, chain_id) == spec_transaction_hash(
            r2,
            class_hash,
            chain_id,
        ),
{
}

/// Signature independence: two records differing only in their signature
/// determine identical transaction hashes.
pub proof fn lemma_signature_independence(
    r1: BroadcastedDeclareTransactionV1,
    r2: BroadcastedDeclareTransactionV1,
    class_hash: Felt,
    chain_id: Felt,
)
    requires
        r1.common.version == r2.common.version,
        r1.sender_address == r2.sender_address,
        r1.common.max_fee == r2.common.max_fee,
        r1.common.nonce == r2.common.nonce,
        r1.contract_class == r2.contract_class,
    ensures
        spec_transaction_hash(r1, class_hash, chain_id) == spec_transaction_hash(
            r2,
            class_hash,
            chain_id,
        ),
{
}

} // verus!
