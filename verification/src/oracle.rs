//! The request that is sent to the randomness oracle, and its answer.

use crate::address::Address;
use crate::error::Error;
use crate::uint::{uint_from_u128, U256};
use vstd::prelude::*;

verus! {

/// The call of the oracle's `generateRequest` that the host is to make.
#[derive(Debug, PartialEq, Eq)]
pub struct RandomnessRequest {
    /// The oracle contract that is called.
    pub oracle: Address,
    /// The signature of the callback that receives the random values.
    pub function_sig: String,
    /// How many random values are asked for.
    pub rng_count: u8,
    /// How many confirmations the oracle waits for before it answers.
    pub num_confirmations: U256,
    /// The account that pays for the request.
    pub client_wallet_address: Address,
}

/// How the call of the oracle ended.
#[derive(Clone, Copy, Debug, PartialEq, Eq)]
pub enum OracleReply {
    /// The oracle took the request and gave it this nonce.
    Nonce(U256),
    /// The oracle refused, reverted, or could not be reached.
    Failed,
}

/// The signature of the callback through which the oracle delivers.
pub open spec fn callback_signature() -> Seq<char> {
    "mintRandomAmount(uint256,uint256[])"@
}

/// What the host learns from an answer of the oracle.
pub open spec fn nonce_of(reply: OracleReply) -> Result<U256, Error> {
    match reply {
        OracleReply::Nonce(nonce) => Ok(nonce),
        OracleReply::Failed => Err(Error::RandomnessRequestFailed),
    }
}

/// Builds requests for randomness and reads the oracle's answers.
pub struct RandomnessOracleClient;

impl RandomnessOracleClient {
    /// The request for one random value after one confirmation, delivered
    /// to the fulfillment callback and paid by `subscription_manager`.
    pub fn request_randomness(oracle: Address, subscription_manager: Address) -> (r:
        RandomnessRequest)
        ensures
            r.oracle == oracle,
            r.function_sig@ == callback_signature(),
            r.rng_count == 1,
            r.num_confirmations == U256::from_nat(1),
            r.client_wallet_address == subscription_manager,
    {
        let one = uint_from_u128(1u128);
        proof {
            one.lemma_from_nat_value();
        }
        RandomnessRequest {
            oracle,
            function_sig: "mintRandomAmount(uint256,uint256[])".to_owned(),
            rng_count: 1u8,
            num_confirmations: one,
            client_wallet_address: subscription_manager,
        }
    }

    /// The nonce that the oracle assigned, or the failure of the request.
    pub fn nonce(reply: OracleReply) -> (r: Result<U256, Error>)
        ensures
            r == nonce_of(reply),
    {
        match reply {
            OracleReply::Nonce(nonce) => Ok(nonce),
            OracleReply::Failed => Err(Error::RandomnessRequestFailed),
        }
    }
}

} // verus!
