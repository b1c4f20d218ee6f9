//! The lottery token: the two operations and the state they share.

use crate::address::Address;
use crate::amount::{lemma_mint_amount_bounds, mint_amount, MintAmountDeriver};
use crate::auth::CallbackAuthenticator;
use crate::error::Error;
use crate::events::Notification;
use crate::minter::{MintCall, MintReply, TokenMinter};
use crate::oracle::{
    callback_signature, OracleReply, RandomnessOracleClient, RandomnessRequest,
};
use crate::registry::AddressRegistry;
use crate::uint::U256;
use vstd::prelude::*;

verus! {

/// The three addresses that a lottery token is built with.
#[derive(Clone, Copy, Debug, PartialEq, Eq)]
pub struct Configuration {
    /// The token contract on which amounts are minted.
    pub rng_token: Address,
    /// The account that pays the oracle.
    pub subscription_manager: Address,
    /// The oracle: the one address that may deliver a fulfillment.
    pub oracle: Address,
}

/// A mint that an accepted fulfillment has ordered and the host has yet to
/// perform.
#[derive(Clone, Copy, Debug, PartialEq, Eq)]
pub struct MintOrder {
    /// The request that was fulfilled.
    pub nonce: U256,
    /// The call to make on the token contract.
    pub call: MintCall,
}

/// What is announced once the host has tried the mint of `order`.
pub open spec fn conclusion(order: MintOrder, reply: MintReply) -> Result<Notification, Error> {
    match reply {
        MintReply::Minted => Ok(
            Notification::Minted {
                nonce: order.nonce,
                to: order.call.account,
                amount: order.call.value,
            },
        ),
        MintReply::Failed => Err(Error::MintFailed),
    }
}

/// The lottery token: its configuration, and the recipients of the mints
/// that wait for their randomness.
pub struct LotteryToken {
    config: Configuration,
    mint_address: AddressRegistry,
}

impl LotteryToken {
    /// The invariant of the token: that of its registry.
    pub closed spec fn wf(self) -> bool {
        self.mint_address.wf()
    }

    /// The addresses that the token was built with.
    pub closed spec fn configuration(self) -> Configuration {
        self.config
    }

    /// The recipient of each request that was submitted, by its nonce.
    pub closed spec fn pending(self) -> Map<U256, Address> {
        self.mint_address@
    }

    /// The address that a mint for `nonce` goes to: the registered
    /// recipient, or the zero address where the nonce is unknown.
    pub open spec fn recipient_of(self, nonce: U256) -> Address {
        if self.pending().dom().contains(nonce) {
            self.pending()[nonce]
        } else {
            Address::zero_address()
        }
    }

    /// What a fulfillment leads to: a refusal of a caller other than the
    /// oracle, then of a fulfillment without a random value, else the mint
    /// of the derived amount to the recipient of the request.
    pub open spec fn fulfillment(self, caller: Address, nonce: U256, values: Seq<U256>) -> Result<
        MintOrder,
        Error,
    > {
        if caller != self.configuration().oracle {
            Err(Error::UnauthorizedCaller)
        } else if values.len() == 0 {
            Err(Error::MalformedFulfillment)
        } else {
            Ok(
                MintOrder {
                    nonce,
                    call: MintCall {
                        token: self.configuration().rng_token,
                        account: self.recipient_of(nonce),
                        value: U256::from_nat(mint_amount(values[0].value())),
                    },
                },
            )
        }
    }

    /// A token with the given configuration and no pending request.
    pub fn constructor(rng_token: Address, subscription_manager: Address, supra_router: Address) -> (r:
        Result<LotteryToken, Error>)
        ensures
            r is Ok,
            r->Ok_0.wf(),
            r->Ok_0.configuration() == (Configuration {
                rng_token,
                subscription_manager,
                oracle: supra_router,
            }),
            r->Ok_0.pending() == Map::<U256, Address>::empty(),
    {
        Ok(Self::init(rng_token, subscription_manager, supra_router))
    }

    fn init(rng_token: Address, subscription_manager: Address, supra_router: Address) -> (r:
        LotteryToken)
        ensures
            r.wf(),
            r.configuration() == (Configuration {
                rng_token,
                subscription_manager,
                oracle: supra_router,
            }),
            r.pending() == Map::<U256, Address>::empty(),
    {
        LotteryToken {
            config: Configuration { rng_token, subscription_manager, oracle: supra_router },
            mint_address: AddressRegistry::new(),
        }
    }

    /// The addresses that the token was built with.
    pub fn config(&self) -> (r: Configuration)
        ensures
            r == self.configuration(),
    {
        self.config
    }

    /// The recipient registered for `nonce`, if there is one.
    pub fn recipient(&self, nonce: U256) -> (r: Option<Address>)
        requires
            self.wf(),
        ensures
            self.pending().dom().contains(nonce) ==> r == Some(self.pending()[nonce]),
            !self.pending().dom().contains(nonce) ==> r.is_none(),
    {
        self.mint_address.find(nonce)
    }

    /// The request for randomness that starts a mint: sent to the oracle,
    /// paid by the subscription manager.
    pub fn request_randomness(&self) -> (r: RandomnessRequest)
        ensures
            r.oracle == self.configuration().oracle,
            r.function_sig@ == callback_signature(),
            r.rng_count == 1,
            r.num_confirmations == U256::from_nat(1),
            r.client_wallet_address == self.configuration().subscription_manager,
    {
        RandomnessOracleClient::request_randomness(self.config.oracle, self.config.subscription_manager)
    }

    /// Starts a mint to `to`, given the oracle's answer to the request for
    /// randomness. With a nonce, `to` is registered under it and the request
    /// is announced; after a failure nothing is registered.
    pub fn mint_to(&mut self, to: Address, reply: OracleReply) -> (r: Result<Notification, Error>)
        requires
            old(self).wf(),
        ensures
            final(self).wf(),
            final(self).configuration() == old(self).configuration(),
            match reply {
                OracleReply::Nonce(nonce) => {
                    &&& r == Ok::<Notification, Error>(Notification::MintRequested { nonce, to })
                    &&& final(self).pending() == old(self).pending().insert(nonce, to)
                },
                OracleReply::Failed => {
                    &&& r == Err::<Notification, Error>(Error::RandomnessRequestFailed)
                    &&& final(self).pending() == old(self).pending()
                },
            },
    {
        match RandomnessOracleClient::nonce(reply) {
            Ok(nonce) => {
                self.mint_address.put(nonce, to);
                Ok(Notification::MintRequested { nonce, to })
            },
            Err(e) => Err(e),
        }
    }

    /// Handles a fulfillment that `caller` delivers for `nonce`. Only the
    /// oracle is heard, and only with a random value; the first value then
    /// decides the amount that is to be minted to the recipient of the
    /// request. The token itself does not change.
    pub fn mint_random_amount(&self, caller: Address, nonce: U256, rng_list: Vec<U256>) -> (r:
        Result<MintOrder, Error>)
        requires
            self.wf(),
        ensures
            r == self.fulfillment(caller, nonce, rng_list@),
            caller != self.configuration().oracle ==> r == Err::<MintOrder, Error>(
                Error::UnauthorizedCaller,
            ),
            caller == self.configuration().oracle && rng_list@.len() == 0 ==> r == Err::<
                MintOrder,
                Error,
            >(Error::MalformedFulfillment),
            caller == self.configuration().oracle && rng_list@.len() > 0 ==> r is Ok,
    {
        match CallbackAuthenticator::authorize(caller, self.config.oracle) {
            Err(e) => { return Err(e); },
            Ok(_) => {},
        }
        if rng_list.len() == 0 {
            return Err(Error::MalformedFulfillment);
        }
        let receiver = self.mint_address.get(nonce);
        let mint_amount = MintAmountDeriver::derive(rng_list[0]);
        let call = TokenMinter::mint_to(self.config.rng_token, receiver, mint_amount);
        Ok(MintOrder { nonce, call })
    }

    /// Ends a fulfillment, given the token contract's answer to the mint of
    /// `order`: the mint is announced, or its failure is passed on.
    pub fn conclude_mint(order: MintOrder, reply: MintReply) -> (r: Result<Notification, Error>)
        ensures
            r == conclusion(order, reply),
    {
        match TokenMinter::outcome(reply) {
            Ok(_) => Ok(
                Notification::Minted {
                    nonce: order.nonce,
                    to: order.call.account,
                    amount: order.call.value,
                },
            ),
            Err(e) => Err(e),
        }
    }
}

/// A fulfillment from any caller but the oracle is refused, whatever the
/// nonce and the random values: no mint is ordered.
pub proof fn lemma_stranger_is_refused(
    token: LotteryToken,
    caller: Address,
    nonce: U256,
    values: Seq<U256>,
)
    requires
        caller != token.configuration().oracle,
    ensures
        token.fulfillment(caller, nonce, values) == Err::<MintOrder, Error>(
            Error::UnauthorizedCaller,
        ),
{
}

/// A fulfillment from the oracle without a random value is refused: no mint
/// is ordered.
pub proof fn lemma_empty_fulfillment_is_refused(token: LotteryToken, nonce: U256)
    ensures
        token.fulfillment(token.configuration().oracle, nonce, Seq::<U256>::empty()) == Err::<
            MintOrder,
            Error,
        >(Error::MalformedFulfillment),
{
}

/// A fulfillment from the oracle for a registered nonce, with a random
/// value, orders one mint on the configured token contract: to the
/// registered recipient, of the first value's remainder on division by the
/// range, plus one. Once that mint has succeeded, it is announced with the
/// same nonce, recipient and amount.
pub proof fn lemma_fulfillment_mints(token: LotteryToken, nonce: U256, values: Seq<U256>)
    requires
        token.pending().dom().contains(nonce),
        values.len() > 0,
    ensures
        token.fulfillment(token.configuration().oracle, nonce, values) is Ok,
        ({
            let order = token.fulfillment(token.configuration().oracle, nonce, values)->Ok_0;
            &&& order.nonce == nonce
            &&& order.call.token == token.configuration().rng_token
            &&& order.call.account == token.pending()[nonce]
            &&& order.call.value.value() == mint_amount(values[0].value())
            &&& conclusion(order, MintReply::Minted) == Ok::<Notification, Error>(
                Notification::Minted {
                    nonce,
                    to: token.pending()[nonce],
                    amount: order.call.value,
                },
            )
        }),
{
    lemma_mint_amount_bounds(values[0].value());
    U256::lemma_value_from_nat(mint_amount(values[0].value()));
}

} // verus!
