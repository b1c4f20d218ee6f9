//! What the lottery token announces.

use crate::address::Address;
use crate::uint::U256;
use vstd::prelude::*;

verus! {

/// A notification for the host to append to its log.
#[derive(Clone, Copy, Debug, PartialEq, Eq)]
pub enum Notification {
    /// A request for randomness was submitted for a mint to `to`.
    MintRequested { nonce: U256, to: Address },
    /// `amount` was minted to `to` for the request `nonce`.
    Minted { nonce: U256, to: Address, amount: U256 },
}

} // verus!
