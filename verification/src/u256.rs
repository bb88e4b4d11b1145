//! 256-bit unsigned integers, the EVM word: balances, base fees and block
//! values. Arithmetic goes through `alloy_primitives::U256`.

use vstd::prelude::*;

verus! {

/// 2^64, the weight of the second limb.
pub open spec fn w64() -> int {
    0x1_0000_0000_0000_0000
}

/// 2^256, one more than the largest value of a [`U256`].
pub open spec fn modulus() -> int {
    w64() * w64() * w64() * w64()
}

/// The largest value a [`U256`] holds: 2^256 - 1.
pub open spec fn max_value() -> int {
    modulus() - 1
}

/// The number that four little-endian 64-bit limbs stand for.
pub open spec fn limbs_value(limbs: [u64; 4]) -> int {
    limbs[0] + w64() * (limbs[1] + w64() * (limbs[2] + w64() * limbs[3]))
}

/// Every four limbs stand for a number in `0 ..= 2^256 - 1`.
pub proof fn lemma_limbs_value_bounds(limbs: [u64; 4])
    ensures
        0 <= limbs_value(limbs) <= max_value(),
{
    let a = limbs[0] as int;
    let b = limbs[1] as int;
    let c = limbs[2] as int;
    let d = limbs[3] as int;
    let w = w64();
    assert(0 <= c + w * d <= w * w - 1) by (nonlinear_arith)
        requires 0 <= c < w, 0 <= d < w;
    assert(0 <= b + w * (c + w * d) <= w * w * w - 1) by (nonlinear_arith)
        requires 0 <= b < w, 0 <= c + w * d <= w * w - 1;
    assert(0 <= a + w * (b + w * (c + w * d)) <= w * w * w * w - 1) by (nonlinear_arith)
        requires 0 <= a < w, 0 <= b + w * (c + w * d) <= w * w * w - 1;
}

/// An unsigned 256-bit integer, held as four little-endian 64-bit limbs
/// (the layout of `alloy_primitives::U256`).
#[derive(Clone, Copy, Debug, PartialEq, Eq, Structural)]
pub struct U256 {
    l0: u64,
    l1: u64,
    l2: u64,
    l3: u64,
}

impl U256 {
    /// The number this value stands for.
    pub open spec fn value(&self) -> int {
        limbs_value(self.limbs_view())
    }

    /// The limbs, least significant first.
    pub closed spec fn limbs_view(&self) -> [u64; 4] {
        [self.l0, self.l1, self.l2, self.l3]
    }

    /// Builds the number from its limbs, least significant first.
    pub fn from_limbs(limbs: [u64; 4]) -> (r: U256)
        ensures
            r.value() == limbs_value(limbs),
            r.limbs_view() == limbs,
    {
        U256 { l0: limbs[0], l1: limbs[1], l2: limbs[2], l3: limbs[3] }
    }

    /// The limbs, least significant first.
    pub fn into_limbs(self) -> (r: [u64; 4])
        ensures
            limbs_value(r) == self.value(),
            r == self.limbs_view(),
    {
        [self.l0, self.l1, self.l2, self.l3]
    }

    /// Zero.
    pub fn zero() -> (r: U256)
        ensures
            r.value() == 0,
    {
        U256 { l0: 0, l1: 0, l2: 0, l3: 0 }
    }

    /// The value of a `u64`.
    pub fn from_u64(x: u64) -> (r: U256)
        ensures
            r.value() == x,
    {
        U256 { l0: x, l1: 0, l2: 0, l3: 0 }
    }

    /// Every value lies in `0 ..= 2^256 - 1`.
    pub proof fn lemma_bounds(&self)
        ensures
            0 <= self.value() <= max_value(),
    {
        lemma_limbs_value_bounds(self.limbs_view());
    }

    /// `self + rhs`, or the largest value where the sum does not fit.
    pub fn saturating_add(self, rhs: U256) -> (r: U256)
        ensures
            r.value() == saturated_sum(self.value(), rhs.value()),
    {
        ruint_saturating_add(self, rhs)
    }

    /// `self * rhs` reduced modulo 2^256.
    pub fn wrapping_mul(self, rhs: U256) -> (r: U256)
        ensures
            r.value() == (self.value() * rhs.value()) % modulus(),
    {
        ruint_wrapping_mul(self, rhs)
    }
}

/// `a + b`, capped at the largest 256-bit value.
pub open spec fn saturated_sum(a: int, b: int) -> int {
    if a + b <= max_value() {
        a + b
    } else {
        max_value()
    }
}

/// Calls `ruint::Uint::saturating_add` (the `U256` of `alloy_primitives`),
/// which adds with overflow detection and returns `Uint::MAX` on overflow.
/// Claimed: the result is the sum where it fits, else `2^256 - 1`.
#[verifier::external_body]
fn ruint_saturating_add(a: U256, b: U256) -> (r: U256)
    ensures
        r.value() == saturated_sum(a.value(), b.value()),
{
    let x = alloy_primitives::U256::from_limbs(a.into_limbs());
    let y = alloy_primitives::U256::from_limbs(b.into_limbs());
    U256::from_limbs(x.saturating_add(y).into_limbs())
}

/// Calls `ruint::Uint::wrapping_mul` (the `U256` of `alloy_primitives`; its
/// `*` operator is the same function). Claimed: the product modulo 2^256.
#[verifier::external_body]
fn ruint_wrapping_mul(a: U256, b: U256) -> (r: U256)
    ensures
        r.value() == (a.value() * b.value()) % modulus(),
{
    let x = alloy_primitives::U256::from_limbs(a.into_limbs());
    let y = alloy_primitives::U256::from_limbs(b.into_limbs());
    U256::from_limbs(x.wrapping_mul(y).into_limbs())
}

} // verus!
