//! Plain-value models of the EVM words that the hook reads and writes.

use vstd::prelude::*;

verus! {

/// Two to the power 64, the weight of one 64-bit limb.
pub open spec fn limb_base() -> int {
    0x1_0000_0000_0000_0000
}

/// A 256-bit unsigned integer held as four little-endian 64-bit limbs.
#[derive(Clone, Copy, Debug, PartialEq, Eq)]
pub struct U256 {
    pub limbs: [u64; 4],
}

impl View for U256 {
    type V = nat;

    open spec fn view(&self) -> nat {
        (self.limbs[0] + self.limbs[1] * limb_base() + self.limbs[2] * (limb_base() * limb_base())
            + self.limbs[3] * (limb_base() * limb_base() * limb_base())) as nat
    }
}

impl U256 {
    /// The word zero.
    pub open spec fn zero_spec() -> U256 {
        U256 { limbs: [0u64, 0u64, 0u64, 0u64] }
    }

    /// The word zero has the value zero.
    pub proof fn lemma_zero_value()
        ensures
            U256::zero_spec()@ == 0,
    {
        let z = U256::zero_spec();
        assert(z.limbs[0] == 0 && z.limbs[1] == 0 && z.limbs[2] == 0 && z.limbs[3] == 0);
    }

    /// The word zero.
    pub fn zero() -> (r: U256)
        ensures
            r == U256::zero_spec(),
            r@ == 0,
    {
        let r = U256 { limbs: [0, 0, 0, 0] };
        assert(r.limbs =~= U256::zero_spec().limbs);
        proof { U256::lemma_zero_value(); }
        r
    }

    /// The word built from the given limbs, least significant first.
    pub fn from_limbs(limbs: [u64; 4]) -> (r: U256)
        ensures
            r.limbs == limbs,
    {
        U256 { limbs }
    }

    /// The value as a `u64`, or `u64::MAX` where it does not fit.
    pub fn saturating_to_u64(&self) -> (r: u64)
        ensures
            r == (if self@ <= u64::MAX { self@ } else { u64::MAX as nat }),
    {
        let ghost b: int = limb_base();
        assert(b * b > 0) by (nonlinear_arith)
            requires b == limb_base();
        assert(b * b * b > 0) by (nonlinear_arith)
            requires b == limb_base();
        if self.limbs[1] == 0 && self.limbs[2] == 0 && self.limbs[3] == 0 {
            self.limbs[0]
        } else {
            assert(self.limbs[1] * b + self.limbs[2] * (b * b) + self.limbs[3] * (b * b * b) >= b)
                by (nonlinear_arith)
                requires
                    b == limb_base(),
                    self.limbs[1] != 0 || self.limbs[2] != 0 || self.limbs[3] != 0,
                    b * b >= b,
                    b * b * b >= b,
            ;
            u64::MAX
        }
    }
}

/// A 20-byte account address.
#[derive(Clone, Copy, Debug, PartialEq, Eq)]
pub struct Address {
    pub bytes: [u8; 20],
}

impl View for Address {
    type V = Seq<u8>;

    open spec fn view(&self) -> Seq<u8> {
        self.bytes@
    }
}

/// A 32-byte word, such as a code hash.
#[derive(Clone, Copy, Debug, PartialEq, Eq)]
pub struct B256 {
    pub bytes: [u8; 32],
}

impl View for B256 {
    type V = Seq<u8>;

    open spec fn view(&self) -> Seq<u8> {
        self.bytes@
    }
}

} // verus!
