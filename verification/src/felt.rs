//! Field elements of the STARK prime field, held as two 128-bit limbs.
//!
//! Every numeric quantity of the transaction core (addresses, fees, nonces,
//! hashes, chain identifiers) is such an element: an integer reduced modulo
//! the prime `2^251 + 17 * 2^192 + 1`.

use vstd::prelude::*;

verus! {

/// `2^128`, the base of the two-limb representation.
pub open spec fn limb_base() -> int {
    0x80000000000000000000000000000000int * 2
}

/// The STARK prime, `2^251 + 17 * 2^192 + 1`.
pub open spec fn felt_prime() -> int {
    0x8000000000000110000000000000000 * limb_base() + 1
}

/// A field element, as the integer `hi * 2^128 + lo`.
///
/// A value is well-formed ([`Felt::wf`]) when that integer is below the
/// prime; all constructors here establish well-formedness and every
/// operation preserves it.
#[derive(Clone, Copy, Debug, PartialEq, Eq, Hash, Structural)]
pub struct Felt {
    /// Upper 128 bits.
    pub hi: u128,
    /// Lower 128 bits.
    pub lo: u128,
}

impl View for Felt {
    type V = int;

    open spec fn view(&self) -> int {
        (self.hi as int) * limb_base() + (self.lo as int)
    }
}

impl Felt {
    /// The represented integer lies in the field: it is below the prime.
    pub open spec fn wf(self) -> bool {
        self@ < felt_prime()
    }

    /// The element with value `v`.
    pub fn from_u128(v: u128) -> (r: Felt)
        ensures
            r.wf(),
            r@ == v as int,
    {
        Felt { hi: 0, lo: v }
    }

    /// The zero element.
    pub fn zero() -> (r: Felt)
        ensures
            r.wf(),
            r@ == 0,
    {
        Felt { hi: 0, lo: 0 }
    }

    /// Decides well-formedness: whether the represented integer is below
    /// the prime.
    pub fn is_wf(&self) -> (r: bool)
        ensures
            r == self.wf(),
    {
        proof {
            lemma_wf_limbs(self.hi, self.lo);
        }
        let h: u128 = 0x8000000000000110000000000000000;
        self.hi < h || (self.hi == h && self.lo == 0)
    }

    /// Builds the element `hi * 2^128 + lo`, refusing a value outside the
    /// field: the result is `Some` exactly when the value is below the prime.
    pub fn checked_new(hi: u128, lo: u128) -> (r: Option<Felt>)
        ensures
            match r {
                Some(f) => f.hi == hi && f.lo == lo && f.wf(),
                None => (hi as int) * limb_base() + (lo as int) >= felt_prime(),
            },
    {
        proof {
            lemma_wf_limbs(hi, lo);
        }
        // prime = h * 2^128 + 1, with h = 2^123 + 17 * 2^64.
        let h: u128 = 0x8000000000000110000000000000000;
        if hi < h || (hi == h && lo == 0) {
            Some(Felt { hi, lo })
        } else {
            None
        }
    }
}

/// The limb test deciding well-formedness: the value `hi * 2^128 + lo` is
/// below the prime exactly when `hi` is below the prime's upper limb, or
/// equal to it with `lo` zero.
pub proof fn lemma_wf_limbs(hi: u128, lo: u128)
    ensures
        ((hi as int) * limb_base() + (lo as int) < felt_prime()) <==> ((hi as int)
            < 0x8000000000000110000000000000000
            || ((hi as int) == 0x8000000000000110000000000000000 && lo == 0)),
{
    assert(((hi as int) * limb_base() + (lo as int) < felt_prime()) <==> ((hi as int)
        < 0x8000000000000110000000000000000 || ((hi as int)
        == 0x8000000000000110000000000000000 && (lo as int) == 0))) by (nonlinear_arith)
        requires
            (lo as int) < limb_base(),
            (hi as int) >= 0,
            (lo as int) >= 0,
            limb_base() > 1,
            felt_prime() == 0x8000000000000110000000000000000 * limb_base() + 1,
    ;
}

/// The sequence of represented integers of a sequence of field elements.
pub open spec fn views_of(s: Seq<Felt>) -> Seq<int> {
    s.map_values(|f: Felt| f@)
}

} // verus!
