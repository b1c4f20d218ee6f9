//! From a raw random value to the amount that is minted.

use crate::uint::{pow2_256, uint_from_u128, uint_rem, uint_wrapping_add, U256};
use vstd::prelude::*;

verus! {

/// The number of different amounts: 10^21.
pub const MINT_RANGE: u128 = 1_000_000_000_000_000_000_000u128;

/// The number of different amounts, as a natural number.
pub open spec fn mint_range() -> nat {
    1_000_000_000_000_000_000_000nat
}

/// The amount that a random value stands for: its remainder on division by
/// the range, plus one.
pub open spec fn mint_amount(random: nat) -> nat {
    random % mint_range() + 1
}

/// Every amount lies between one and the range, both included.
pub proof fn lemma_mint_amount_bounds(random: nat)
    ensures
        1 <= mint_amount(random) <= mint_range(),
        mint_amount(random) < pow2_256(),
{
}

/// The least random value gives the least amount, and the last value before
/// the range gives the greatest.
pub proof fn lemma_mint_amount_ends()
    ensures
        mint_amount(0) == 1,
        mint_amount((mint_range() - 1) as nat) == mint_range(),
{
}

/// The amount is a function of the random value alone: two integers that
/// both hold the amount of one random value are the same integer.
pub proof fn lemma_amount_is_determined(random: U256, first: U256, second: U256)
    requires
        first.value() == mint_amount(random.value()),
        second.value() == mint_amount(random.value()),
    ensures
        first == second,
{
    U256::lemma_value_injective(first, second);
}

/// Derives the amount to mint.
pub struct MintAmountDeriver;

impl MintAmountDeriver {
    /// The amount for `random`. It depends on `random` alone, and the
    /// arithmetic is done on 256 bits, so that no input overflows.
    pub fn derive(random: U256) -> (amount: U256)
        ensures
            amount.value() == mint_amount(random.value()),
            amount == U256::from_nat(mint_amount(random.value())),
            1 <= amount.value() <= mint_range(),
    {
        let range = uint_from_u128(MINT_RANGE);
        let one = uint_from_u128(1u128);
        let amount = uint_wrapping_add(uint_rem(random, range), one);
        proof {
            amount.lemma_from_nat_value();
        }
        amount
    }
}

} // verus!
