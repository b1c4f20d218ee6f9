//! The mint that is asked of the token contract, and its answer.

use crate::address::Address;
use crate::error::Error;
use crate::uint::U256;
use vstd::prelude::*;

verus! {

/// The call of the token contract's `mint` that the host is to make.
#[derive(Clone, Copy, Debug, PartialEq, Eq)]
pub struct MintCall {
    /// The token contract that is called.
    pub token: Address,
    /// The account that receives the tokens.
    pub account: Address,
    /// How much is minted.
    pub value: U256,
}

/// How the call of the token contract ended.
#[derive(Clone, Copy, Debug, PartialEq, Eq, Structural)]
pub enum MintReply {
    /// The tokens were minted.
    Minted,
    /// The call reverted or could not be made.
    Failed,
}

/// What the host learns from an answer of the token contract.
pub open spec fn mint_outcome(reply: MintReply) -> Result<(), Error> {
    match reply {
        MintReply::Minted => Ok(()),
        MintReply::Failed => Err(Error::MintFailed),
    }
}

/// Builds mint calls and reads the token contract's answers.
pub struct TokenMinter;

impl TokenMinter {
    /// The call that mints `amount` on `token` to `recipient`.
    pub fn mint_to(token: Address, recipient: Address, amount: U256) -> (r: MintCall)
        ensures
            r == (MintCall { token, account: recipient, value: amount }),
    {
        MintCall { token, account: recipient, value: amount }
    }

    /// Success, or the failure of the mint.
    pub fn outcome(reply: MintReply) -> (r: Result<(), Error>)
        ensures
            r == mint_outcome(reply),
    {
        match reply {
            MintReply::Minted => Ok(()),
            MintReply::Failed => Err(Error::MintFailed),
        }
    }
}

} // verus!
