//! Who may deliver a fulfillment.

use crate::address::Address;
use crate::error::Error;
use vstd::prelude::*;

verus! {

/// Checks that a fulfillment comes from the oracle.
pub struct CallbackAuthenticator;

impl CallbackAuthenticator {
    /// Accepts `caller` exactly when it is the configured oracle.
    pub fn authorize(caller: Address, configured_oracle: Address) -> (r: Result<(), Error>)
        ensures
            caller == configured_oracle ==> r == Ok::<(), Error>(()),
            caller != configured_oracle ==> r == Err::<(), Error>(Error::UnauthorizedCaller),
    {
        if caller == configured_oracle {
            Ok(())
        } else {
            Err(Error::UnauthorizedCaller)
        }
    }
}

} // verus!
