//! A lottery token: mints of a random, bounded amount, driven by a
//! randomness oracle that answers each request through a callback.
//!
//! The library holds the decisions of the protocol. Calls to the oracle and
//! to the token contract are described as values that the host performs; the
//! host hands the outcome of each call back to the library.

pub mod address;
pub mod amount;
pub mod auth;
pub mod error;
pub mod events;
pub mod minter;
pub mod oracle;
pub mod registry;
pub mod token;
pub mod uint;
