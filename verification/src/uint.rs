//! Unsigned 256-bit integers.

use vstd::arithmetic::div_mod::{lemma_fundamental_div_mod, lemma_fundamental_div_mod_converse};
use vstd::prelude::*;

verus! {

/// An unsigned 256-bit integer, held as four 64-bit limbs, least significant
/// first.
#[derive(Clone, Copy, Debug, PartialEq, Eq, Structural)]
pub struct U256 {
    pub l0: u64,
    pub l1: u64,
    pub l2: u64,
    pub l3: u64,
}

/// 2^64, the weight of the second limb.
pub open spec fn pow2_64() -> nat {
    0x1_0000_0000_0000_0000nat
}

/// 2^128, the weight of the third limb.
pub open spec fn pow2_128() -> nat {
    0x1_0000_0000_0000_0000_0000_0000_0000_0000nat
}

/// 2^192, the weight of the fourth limb.
pub open spec fn pow2_192() -> nat {
    0x1_0000_0000_0000_0000_0000_0000_0000_0000_0000_0000_0000_0000nat
}

/// 2^256, one more than the largest value a `U256` holds.
pub open spec fn pow2_256() -> nat {
    0x1_0000_0000_0000_0000_0000_0000_0000_0000_0000_0000_0000_0000_0000_0000_0000_0000nat
}

impl U256 {
    /// The number that the limbs stand for.
    pub open spec fn value(self) -> nat {
        (self.l0 + self.l1 * pow2_64() + self.l2 * pow2_128() + self.l3 * pow2_192()) as nat
    }

    /// The integer whose value is `n`, for `n` below 2^256: each limb is a
    /// digit of `n` in base 2^64.
    pub open spec fn from_nat(n: nat) -> U256 {
        U256 {
            l0: (n % pow2_64()) as u64,
            l1: ((n / pow2_64()) % pow2_64()) as u64,
            l2: ((n / pow2_64() / pow2_64()) % pow2_64()) as u64,
            l3: ((n / pow2_64() / pow2_64() / pow2_64()) % pow2_64()) as u64,
        }
    }

    /// Reading the value of an integer and building it again gives the same
    /// limbs.
    pub proof fn lemma_from_nat_value(self)
        ensures
            U256::from_nat(self.value()) == self,
    {
        let n = self.value() as int;
        let b = pow2_64() as int;
        let upper1 = self.l1 + self.l2 * b + self.l3 * pow2_128();
        let upper2 = self.l2 + self.l3 * b;
        assert(n == upper1 * b + self.l0);
        lemma_fundamental_div_mod_converse(n, b, upper1, self.l0 as int);
        assert(upper1 == upper2 * b + self.l1);
        lemma_fundamental_div_mod_converse(upper1, b, upper2, self.l1 as int);
        lemma_fundamental_div_mod_converse(upper2, b, self.l3 as int, self.l2 as int);
        lemma_fundamental_div_mod_converse(self.l3 as int, b, 0, self.l3 as int);
    }

    /// Building an integer from a number below 2^256 keeps the number.
    pub proof fn lemma_value_from_nat(n: nat)
        requires
            n < pow2_256(),
        ensures
            U256::from_nat(n).value() == n,
    {
        let b = pow2_64() as int;
        let q1 = n as int / b;
        let q2 = q1 / b;
        let q3 = q2 / b;
        lemma_fundamental_div_mod(n as int, b);
        lemma_fundamental_div_mod(q1, b);
        lemma_fundamental_div_mod(q2, b);
        assert(q1 < pow2_192());
        assert(q2 < pow2_128());
        assert(q3 < b);
        lemma_fundamental_div_mod_converse(q3, b, 0, q3);
        assert(n == n as int % b + (q1 % b) * b + (q2 % b) * pow2_128() + q3 * pow2_192());
    }

    /// Two integers with the same value have the same limbs.
    pub proof fn lemma_value_injective(a: U256, b: U256)
        requires
            a.value() == b.value(),
        ensures
            a == b,
    {
        a.lemma_from_nat_value();
        b.lemma_from_nat_value();
    }

    /// Builds an integer from its limbs, least significant first.
    pub fn from_limbs(limbs: [u64; 4]) -> (r: U256)
        ensures
            r.l0 == limbs[0],
            r.l1 == limbs[1],
            r.l2 == limbs[2],
            r.l3 == limbs[3],
    {
        U256 { l0: limbs[0], l1: limbs[1], l2: limbs[2], l3: limbs[3] }
    }

    /// The limbs, least significant first.
    pub fn into_limbs(self) -> (r: [u64; 4])
        ensures
            r[0] == self.l0,
            r[1] == self.l1,
            r[2] == self.l2,
            r[3] == self.l3,
    {
        [self.l0, self.l1, self.l2, self.l3]
    }
}

/// Calls `Uint::from` of ruint, the integer type behind the `U256` of
/// `alloy_primitives`, on a `u128`. The call panics only on a value that does
/// not fit, and every `u128` fits in 256 bits.
/// Trusted: the result has the value of the argument.
#[verifier::external_body]
pub(crate) fn uint_from_u128(x: u128) -> (r: U256)
    ensures
        r.value() == x,
{
    let v = stylus_sdk::alloy_primitives::U256::from(x);
    let l = v.into_limbs();
    U256 { l0: l[0], l1: l[1], l2: l[2], l3: l[3] }
}

/// Calls the `%` of ruint's `Uint`, which is its `wrapping_rem` and panics
/// on a zero divisor. The limbs go in and out through `from_limbs` and
/// `into_limbs`, least significant first.
/// Trusted: for a divisor other than zero the result is the remainder of the
/// division of the values.
#[verifier::external_body]
pub(crate) fn uint_rem(a: U256, m: U256) -> (r: U256)
    requires
        m.value() != 0,
    ensures
        r.value() == a.value() % m.value(),
{
    let x = stylus_sdk::alloy_primitives::U256::from_limbs([a.l0, a.l1, a.l2, a.l3]);
    let y = stylus_sdk::alloy_primitives::U256::from_limbs([m.l0, m.l1, m.l2, m.l3]);
    let l = (x % y).into_limbs();
    U256 { l0: l[0], l1: l[1], l2: l[2], l3: l[3] }
}

/// Calls the `+` of ruint's `Uint`, which is its `wrapping_add`. The limbs
/// go in and out through `from_limbs` and `into_limbs`, least significant
/// first.
/// Trusted: the result is the sum of the values modulo 2^256.
#[verifier::external_body]
pub(crate) fn uint_wrapping_add(a: U256, b: U256) -> (r: U256)
    ensures
        r.value() == (a.value() + b.value()) % pow2_256(),
{
    let x = stylus_sdk::alloy_primitives::U256::from_limbs([a.l0, a.l1, a.l2, a.l3]);
    let y = stylus_sdk::alloy_primitives::U256::from_limbs([b.l0, b.l1, b.l2, b.l3]);
    let l = (x + y).into_limbs();
    U256 { l0: l[0], l1: l[1], l2: l[2], l3: l[3] }
}

} // verus!
