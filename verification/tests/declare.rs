use std::collections::BTreeMap;

use declare_tx::error::{Error, PolicyField};
use declare_tx::felt::Felt;
use declare_tx::hash::compute_hash_on_elements;
use declare_tx::transaction::{validate_declare_selector, BroadcastedDeclareTransactionV1};
use declare_tx::version::verify_version;

use starknet_core::types::contract::legacy::{
    LegacyContractClass, LegacyProgram, LegacyReferenceManager, RawLegacyEntryPoints,
};

/// The STARK prime as a hex string, for hand-built legacy programs.
const PRIME_HEX: &str = "0x800000000000011000000000000000000000000000000000000000000000001";

/// Testnet chain identifier: the ASCII bytes of "SN_GOERLI".
const CHAIN_ID_TESTNET: u128 = 0x534e5f474f45524c49;

fn felt_hex(hex: &str) -> Felt {
    let b = starknet_core::types::Felt::from_hex(hex).unwrap().to_bytes_be();
    Felt {
        hi: u128::from_be_bytes(b[..16].try_into().unwrap()),
        lo: u128::from_be_bytes(b[16..].try_into().unwrap()),
    }
}

fn outside_felt(f: &Felt) -> starknet_core::types::Felt {
    let mut b = [0u8; 32];
    b[..16].copy_from_slice(&f.hi.to_be_bytes());
    b[16..].copy_from_slice(&f.lo.to_be_bytes());
    starknet_core::types::Felt::from_bytes_be(&b)
}

fn empty_class() -> LegacyContractClass {
    LegacyContractClass {
        abi: vec![],
        entry_points_by_type: RawLegacyEntryPoints {
            constructor: vec![],
            external: vec![],
            l1_handler: vec![],
        },
        program: LegacyProgram {
            attributes: None,
            builtins: vec![],
            compiler_version: None,
            data: vec![],
            debug_info: None,
            hints: BTreeMap::new(),
            identifiers: BTreeMap::new(),
            main_scope: "__main__".to_string(),
            prime: PRIME_HEX.to_string(),
            reference_manager: LegacyReferenceManager { references: vec![] },
        },
    }
}

fn malformed_class() -> LegacyContractClass {
    let mut class = empty_class();
    // A builtin name too long for a Cairo short string is refused by the
    // contract-class hasher.
    class.program.builtins = vec!["a_builtin_name_far_too_long_to_be_a_short_string".to_string()];
    class
}

fn sample_record(signature: Vec<Felt>) -> BroadcastedDeclareTransactionV1 {
    BroadcastedDeclareTransactionV1::new(
        felt_hex("0x0123456789abcdef0123456789abcdef0123456789abcdef"),
        0x38d7ea4c68000,
        signature,
        Felt::from_u128(5),
        empty_class(),
        Felt::from_u128(1),
    )
}

#[test]
fn hash_on_elements_matches_published_vector() {
    // A cairo-lang reference vector.
    let data = vec![
        felt_hex("0xaa"),
        felt_hex("0xbb"),
        felt_hex("0xcc"),
        felt_hex("0xdd"),
    ];
    let expected = felt_hex("0x025cde77210b1c223b2c6e69db6e9021aa1599177ab177474d5326cd2a62cb69");
    assert_eq!(compute_hash_on_elements(&data), expected);
}

#[test]
fn hash_on_no_elements_matches_published_vector() {
    // A cairo-lang reference vector.
    let expected = felt_hex("0x049ee3eba8c1600700ee1b87eb599f16716b0b1022947733551fde4050ca6804");
    assert_eq!(compute_hash_on_elements(&vec![]), expected);
}

#[test]
fn validate_declare_selector_matches_entry_point_name() {
    let expected =
        starknet_core::utils::get_selector_from_name("__validate_declare__").unwrap();
    assert_eq!(outside_felt(&validate_declare_selector()), expected);
}

#[test]
fn transaction_hash_matches_reference_implementation() {
    let record = sample_record(vec![Felt::from_u128(7)]);
    let chain_id = Felt::from_u128(CHAIN_ID_TESTNET);
    let class_hash =
        felt_hex("0x0711941b11a8236b8cca42b664e19342ac7300abb1dc44957763cb65877c2708");
    let got = record.calculate_transaction_hash(&chain_id, &class_hash);

    // The same protocol ordering, computed with the reference fold.
    let prefix = starknet_core::types::Felt::from(0x6465636c617265u64);
    let calldata_hash =
        starknet_core::crypto::compute_hash_on_elements(&[outside_felt(&class_hash)]);
    let expected = starknet_core::crypto::compute_hash_on_elements(&[
        prefix,
        starknet_core::types::Felt::ONE,
        outside_felt(&record.sender_address),
        starknet_core::types::Felt::ZERO,
        calldata_hash,
        starknet_core::types::Felt::from(0x38d7ea4c68000u64),
        outside_felt(&chain_id),
        starknet_core::types::Felt::from(5u64),
    ]);
    assert_eq!(outside_felt(&got), expected);
}

#[test]
fn transaction_hash_is_deterministic() {
    let r1 = sample_record(vec![]);
    let r2 = sample_record(vec![]);
    let chain_id = Felt::from_u128(CHAIN_ID_TESTNET);
    let class_hash = felt_hex("0x0abcdef");
    let h1 = r1.calculate_transaction_hash(&chain_id, &class_hash);
    let h2 = r1.calculate_transaction_hash(&chain_id, &class_hash);
    let h3 = r2.calculate_transaction_hash(&chain_id, &class_hash);
    assert_eq!(h1, h2);
    assert_eq!(h1, h3);
}

#[test]
fn swapping_nonce_and_class_hash_changes_the_hash() {
    let nonce = Felt::from_u128(5);
    let class_hash = felt_hex("0x0711941b11a8236b8cca42b664e19342ac7300abb1dc44957763cb65877c2708");
    let chain_id = Felt::from_u128(CHAIN_ID_TESTNET);
    let straight = sample_record(vec![]).calculate_transaction_hash(&chain_id, &class_hash);
    // The same record with the class hash standing in the nonce position
    // and the nonce handed in as the class hash.
    let swapped = BroadcastedDeclareTransactionV1::new(
        felt_hex("0x0123456789abcdef0123456789abcdef0123456789abcdef"),
        0x38d7ea4c68000,
        vec![],
        class_hash,
        empty_class(),
        Felt::from_u128(1),
    )
    .calculate_transaction_hash(&chain_id, &nonce);
    assert_ne!(straight, swapped);
}

#[test]
fn transaction_hash_ignores_signature() {
    let chain_id = Felt::from_u128(CHAIN_ID_TESTNET);
    let class_hash = felt_hex("0x0abcdef");
    let unsigned = sample_record(vec![]);
    let signed = sample_record(vec![felt_hex("0x1111"), felt_hex("0x2222")]);
    assert_eq!(
        unsigned.calculate_transaction_hash(&chain_id, &class_hash),
        signed.calculate_transaction_hash(&chain_id, &class_hash)
    );
}

#[test]
fn empty_signature_on_fee_paying_version_is_refused() {
    let v1 = Felt::from_u128(1);
    let nonce = Felt::from_u128(5);
    let refused = verify_version(&v1, 7, &nonce, &vec![]);
    assert!(matches!(
        refused,
        Err(Error::VersionMismatch(PolicyField::Signature))
    ));
    let passed = verify_version(&v1, 7, &nonce, &vec![Felt::from_u128(9)]);
    assert!(passed.is_ok());
}

#[test]
fn query_version_allows_empty_signature() {
    // Version one with the query offset 2^128.
    let query_v1 = Felt { hi: 1, lo: 1 };
    let nonce = Felt::from_u128(5);
    assert!(verify_version(&query_v1, 7, &nonce, &vec![]).is_ok());
}

#[test]
fn unknown_version_is_refused() {
    let v3 = Felt::from_u128(3);
    let nonce = Felt::from_u128(5);
    let refused = verify_version(&v3, 7, &nonce, &vec![Felt::from_u128(9)]);
    assert!(matches!(
        refused,
        Err(Error::VersionMismatch(PolicyField::Version))
    ));
}

#[test]
fn create_sir_declare_assembles_the_record_verbatim() {
    let record = sample_record(vec![felt_hex("0x1111"), felt_hex("0x2222")]);
    let chain_id = Felt::from_u128(CHAIN_ID_TESTNET);
    let class_hash = record.generate_class_hash().unwrap();
    let tx_hash = record.calculate_transaction_hash(&chain_id, &class_hash);
    let declare = record.create_sir_declare(class_hash, tx_hash).unwrap();
    assert_eq!(declare.class_hash, class_hash);
    assert_eq!(declare.sender_address, record.sender_address);
    assert_eq!(declare.validate_entry_point_selector, validate_declare_selector());
    assert_eq!(declare.version, record.common.version);
    assert_eq!(declare.max_fee, record.common.max_fee);
    assert_eq!(declare.signature, record.common.signature);
    assert_eq!(declare.nonce, record.common.nonce);
    assert_eq!(declare.hash_value, tx_hash);
}

#[test]
fn create_sir_declare_refuses_empty_signature() {
    let record = sample_record(vec![]);
    let chain_id = Felt::from_u128(CHAIN_ID_TESTNET);
    let class_hash = record.generate_class_hash().unwrap();
    let tx_hash = record.calculate_transaction_hash(&chain_id, &class_hash);
    let refused = record.create_sir_declare(class_hash, tx_hash);
    assert!(matches!(
        refused,
        Err(Error::VersionMismatch(PolicyField::Signature))
    ));
}

#[test]
fn create_declare_copies_every_field() {
    let record = sample_record(vec![felt_hex("0x1111")]);
    let class_hash = felt_hex("0x0abc");
    let tx_hash = felt_hex("0x0def");
    let declare = record.create_declare(class_hash, tx_hash);
    assert_eq!(declare.class_hash, class_hash);
    assert_eq!(declare.sender_address, record.sender_address);
    assert_eq!(declare.nonce, record.common.nonce);
    assert_eq!(declare.max_fee, record.common.max_fee);
    assert_eq!(declare.version, record.common.version);
    assert_eq!(declare.transaction_hash, tx_hash);
    assert_eq!(declare.signature, record.common.signature);
}

#[test]
fn class_hash_is_deterministic() {
    let record = sample_record(vec![]);
    let h1 = record.generate_class_hash().unwrap();
    let h2 = record.generate_class_hash().unwrap();
    assert_eq!(h1, h2);
}

#[test]
fn malformed_class_is_rejected_with_the_hasher_error() {
    let record = BroadcastedDeclareTransactionV1::new(
        felt_hex("0x1234"),
        7,
        vec![felt_hex("0x1111")],
        Felt::from_u128(5),
        malformed_class(),
        Felt::from_u128(1),
    );
    let refused = record.generate_class_hash();
    assert!(matches!(refused, Err(Error::ClassHash(_))));
}

#[test]
fn felt_construction_respects_the_prime() {
    // The prime itself is out of the field; its predecessor is in.
    let prime_hi: u128 = 0x8000000000000110000000000000000;
    assert!(Felt::checked_new(prime_hi, 1).is_none());
    assert!(Felt::checked_new(prime_hi + 1, 0).is_none());
    let largest = Felt::checked_new(prime_hi, 0).unwrap();
    assert_eq!(largest.hi, prime_hi);
    assert_eq!(largest.lo, 0);
    let small = Felt::checked_new(0, 42).unwrap();
    assert_eq!(small, Felt::from_u128(42));
}

#[test]
fn nonce_outside_the_field_is_refused() {
    let v1 = Felt::from_u128(1);
    // The prime itself: one past the largest field element.
    let out_of_width = Felt {
        hi: 0x8000000000000110000000000000000,
        lo: 1,
    };
    let refused = verify_version(&v1, 7, &out_of_width, &vec![Felt::from_u128(9)]);
    assert!(matches!(
        refused,
        Err(Error::VersionMismatch(PolicyField::Nonce))
    ));
}

#[test]
fn create_sir_declare_refuses_nonce_outside_the_field() {
    let record = BroadcastedDeclareTransactionV1::new(
        felt_hex("0x1234"),
        7,
        vec![felt_hex("0x1111")],
        Felt {
            hi: 0x8000000000000110000000000000000,
            lo: 1,
        },
        empty_class(),
        Felt::from_u128(1),
    );
    let refused = record.create_sir_declare(felt_hex("0x0abc"), felt_hex("0x0def"));
    assert!(matches!(
        refused,
        Err(Error::VersionMismatch(PolicyField::Nonce))
    ));
}

#[test]
fn class_hash_depends_on_the_payload_only() {
    let r1 = sample_record(vec![]);
    let r2 = BroadcastedDeclareTransactionV1::new(
        felt_hex("0x9999"),
        1,
        vec![felt_hex("0x7777")],
        Felt::from_u128(11),
        empty_class(),
        Felt::from_u128(0),
    );
    assert_eq!(
        r1.generate_class_hash().unwrap(),
        r2.generate_class_hash().unwrap()
    );
}
