//! The canonical, domain-separated transaction hash.
//!
//! The combining function folds a sequence of field elements left-to-right
//! with the Pedersen hash, starting from zero and finally mixing in the
//! length of the sequence ([`compute_hash_on_elements`]). The declare
//! transaction hash fixes the order of operands fed to that fold
//! ([`declare_v1_hash_input`]): a type prefix, the version, the sender, a
//! zero sentinel in the entry-point-selector position, the hash of the
//! one-element calldata holding the class hash, the maximal fee, the chain
//! identifier, and the nonce. Order is part of the protocol: permuting the
//! operands yields a non-conforming hash.

use vstd::prelude::*;

use crate::felt::{views_of, Felt};

verus! {

/// The value of the Pedersen hash of two field elements.
///
/// The hash is a pure function of its two arguments; nothing else is
/// assumed of its values here.
pub uninterp spec fn pedersen(a: int, b: int) -> int;

/// Relies on `starknet_crypto::pedersen_hash`: the Starkware Pedersen hash,
/// a pure function of its two field-element arguments, returning a reduced
/// field element.
#[verifier::external_body]
fn pedersen_exec(a: &Felt, b: &Felt) -> (r: Felt)
    requires
        a.wf(),
        b.wf(),
    ensures
        r.wf(),
        r@ == pedersen(a@, b@),
{
    let mut ab = [0u8; 32];
    ab[..16].copy_from_slice(&a.hi.to_be_bytes());
    ab[16..].copy_from_slice(&a.lo.to_be_bytes());
    let mut bb = [0u8; 32];
    bb[..16].copy_from_slice(&b.hi.to_be_bytes());
    bb[16..].copy_from_slice(&b.lo.to_be_bytes());
    let x = starknet_core::types::Felt::from_bytes_be(&ab);
    let y = starknet_core::types::Felt::from_bytes_be(&bb);
    let h = starknet_crypto::pedersen_hash(&x, &y).to_bytes_be();
    Felt {
        hi: u128::from_be_bytes(h[..16].try_into().unwrap()),
        lo: u128::from_be_bytes(h[16..].try_into().unwrap()),
    }
}

/// The left-to-right Pedersen fold of a sequence, seeded with zero.
pub open spec fn pedersen_chain(s: Seq<int>) -> int
    decreases s.len(),
{
    if s.len() == 0 {
        0
    } else {
        pedersen(pedersen_chain(s.drop_last()), s.last())
    }
}

/// The canonical hash of a sequence of field elements: the Pedersen fold of
/// the sequence, hashed once more against the sequence's length.
pub open spec fn hash_elements(s: Seq<int>) -> int {
    pedersen(pedersen_chain(s), s.len() as int)
}

/// All elements of a sequence are well-formed field elements.
pub open spec fn all_wf(s: Seq<Felt>) -> bool {
    forall|i: int| 0 <= i < s.len() ==> s[i].wf()
}

/// Computes the canonical hash of `data`: the Pedersen fold of the
/// elements, seeded with zero and finally hashed against the length.
pub fn compute_hash_on_elements(data: &Vec<Felt>) -> (r: Felt)
    requires
        all_wf(data@),
    ensures
        r.wf(),
        r@ == hash_elements(views_of(data@)),
{
    let ghost all = views_of(data@);
    let mut current = Felt::zero();
    let mut i: usize = 0;
    while i < data.len()
        invariant
            all_wf(data@),
            all == views_of(data@),
            0 <= i <= data.len(),
            current.wf(),
            current@ == pedersen_chain(all.take(i as int)),
        decreases data.len() - i,
    {
        current = pedersen_exec(&current, &data[i]);
        proof {
            assert(all.take(i + 1).drop_last() =~= all.take(i as int));
            assert(all.take(i + 1).last() == data@[i as int]@);
        }
        i = i + 1;
    }
    proof {
        assert(all.take(data@.len() as int) =~= all);
    }
    let len_felt = Felt::from_u128(data.len() as u128);
    pedersen_exec(&current, &len_felt)
}

/// The transaction-type prefix seeding the declare hash: the ASCII bytes
/// of `"declare"`, read as a big-endian integer.
pub const DECLARE_PREFIX: u64 = 0x6465636c617265;

/// The ordered operand sequence of the declare transaction hash. Order is
/// part of the protocol: the type prefix, the version, the sender address,
/// a zero sentinel in the entry-point-selector position, the canonical hash
/// of the one-element calldata holding the class hash, the maximal fee, the
/// chain identifier, and last the nonce.
pub open spec fn declare_v1_hash_input(
    version: int,
    sender_address: int,
    max_fee: int,
    nonce: int,
    class_hash: int,
    chain_id: int,
) -> Seq<int> {
    seq![
        DECLARE_PREFIX as int,
        version,
        sender_address,
        0int,
        hash_elements(seq![class_hash]),
        max_fee,
        chain_id,
        nonce,
    ]
}

/// The declare transaction hash: the canonical hash of the ordered operand
/// sequence. A pure function of the six inputs — in particular, never of
/// the signature.
pub open spec fn declare_v1_tx_hash(
    version: int,
    sender_address: int,
    max_fee: int,
    nonce: int,
    class_hash: int,
    chain_id: int,
) -> int {
    hash_elements(
        declare_v1_hash_input(version, sender_address, max_fee, nonce, class_hash, chain_id),
    )
}

/// Operand order is load-bearing: swapping the nonce and the class hash
/// between their positions changes the operand sequence fed to the hash
/// whenever the two values differ.
pub proof fn lemma_order_sensitive(
    version: int,
    sender_address: int,
    max_fee: int,
    nonce: int,
    class_hash: int,
    chain_id: int,
)
    requires
        nonce != class_hash,
    ensures
        declare_v1_hash_input(version, sender_address, max_fee, nonce, class_hash, chain_id)
            != declare_v1_hash_input(
            version,
            sender_address,
            max_fee,
            class_hash,
            nonce,
            chain_id,
        ),
{
    let a = declare_v1_hash_input(version, sender_address, max_fee, nonce, class_hash, chain_id);
    let b = declare_v1_hash_input(version, sender_address, max_fee, class_hash, nonce, chain_id);
    assert(a[7] == nonce);
    assert(b[7] == class_hash);
}

} // verus!
