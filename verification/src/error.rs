//! The ways in which an operation of the lottery token fails.

use vstd::prelude::*;

verus! {

/// A failure of one of the two public operations.
#[derive(Clone, Copy, Debug, PartialEq, Eq, Structural)]
pub enum Error {
    /// The call that asks the oracle for randomness did not succeed.
    RandomnessRequestFailed,
    /// A fulfillment came from an address other than the oracle's.
    UnauthorizedCaller,
    /// A fulfillment carried no random value.
    MalformedFulfillment,
    /// The call that mints on the token contract did not succeed.
    MintFailed,
}

} // verus!
