use lottery_token::address::Address;
use lottery_token::error::Error;
use lottery_token::events::Notification;
use lottery_token::minter::{MintCall, MintReply, TokenMinter};
use lottery_token::oracle::{OracleReply, RandomnessOracleClient};
use lottery_token::token::{Configuration, LotteryToken, MintOrder};
use lottery_token::uint::U256;

fn word(x: u64) -> U256 {
    U256::from_limbs([x, 0, 0, 0])
}

fn account(tag: u8) -> Address {
    Address::new([tag; 20])
}

fn token_address() -> Address {
    account(0x11)
}

fn manager() -> Address {
    account(0x22)
}

fn oracle() -> Address {
    account(0x33)
}

fn recipient() -> Address {
    account(0x44)
}

fn deployed() -> LotteryToken {
    match LotteryToken::constructor(token_address(), manager(), oracle()) {
        Ok(token) => token,
        Err(e) => panic!("constructor failed: {:?}", e),
    }
}

#[test]
fn constructor_keeps_the_three_addresses() {
    let token = deployed();
    assert_eq!(
        token.config(),
        Configuration {
            rng_token: token_address(),
            subscription_manager: manager(),
            oracle: oracle(),
        }
    );
    assert_eq!(token.recipient(word(42)), None);
}

#[test]
fn request_names_callback_count_confirmations_and_payer() {
    let token = deployed();
    let request = token.request_randomness();
    assert_eq!(request.oracle, oracle());
    assert_eq!(request.function_sig, "mintRandomAmount(uint256,uint256[])");
    assert_eq!(request.rng_count, 1);
    assert_eq!(request.num_confirmations, word(1));
    assert_eq!(request.client_wallet_address, manager());
    assert_eq!(request, RandomnessOracleClient::request_randomness(oracle(), manager()));
}

#[test]
fn oracle_reply_gives_nonce_or_failure() {
    assert_eq!(RandomnessOracleClient::nonce(OracleReply::Nonce(word(42))), Ok(word(42)));
    assert_eq!(
        RandomnessOracleClient::nonce(OracleReply::Failed),
        Err(Error::RandomnessRequestFailed)
    );
}

#[test]
fn minter_builds_call_and_reads_reply() {
    assert_eq!(
        TokenMinter::mint_to(token_address(), recipient(), word(8)),
        MintCall { token: token_address(), account: recipient(), value: word(8) }
    );
    assert_eq!(TokenMinter::outcome(MintReply::Minted), Ok(()));
    assert_eq!(TokenMinter::outcome(MintReply::Failed), Err(Error::MintFailed));
}

#[test]
fn mint_to_registers_recipient_under_nonce() {
    let mut token = deployed();
    let announced = token.mint_to(recipient(), OracleReply::Nonce(word(42)));
    assert_eq!(announced, Ok(Notification::MintRequested { nonce: word(42), to: recipient() }));
    assert_eq!(token.recipient(word(42)), Some(recipient()));
    assert_eq!(token.recipient(word(41)), None);
    assert_eq!(token.config().oracle, oracle());
}

#[test]
fn mint_to_registers_nothing_when_oracle_fails() {
    let mut token = deployed();
    let announced = token.mint_to(recipient(), OracleReply::Failed);
    assert_eq!(announced, Err(Error::RandomnessRequestFailed));
    assert_eq!(token.recipient(word(42)), None);
    assert_eq!(token.recipient(word(0)), None);
}

#[test]
fn request_then_fulfillment_mints_eight() {
    let mut token = deployed();
    let announced = token.mint_to(recipient(), OracleReply::Nonce(word(42)));
    assert_eq!(announced, Ok(Notification::MintRequested { nonce: word(42), to: recipient() }));
    assert_eq!(token.recipient(word(42)), Some(recipient()));

    let order = token.mint_random_amount(oracle(), word(42), vec![word(7)]);
    let expected = MintOrder {
        nonce: word(42),
        call: MintCall { token: token_address(), account: recipient(), value: word(8) },
    };
    assert_eq!(order, Ok(expected));
    assert_eq!(
        LotteryToken::conclude_mint(expected, MintReply::Minted),
        Ok(Notification::Minted { nonce: word(42), to: recipient(), amount: word(8) })
    );
}

#[test]
fn fulfillment_from_stranger_is_unauthorized() {
    let mut token = deployed();
    assert!(token.mint_to(recipient(), OracleReply::Nonce(word(42))).is_ok());
    let order = token.mint_random_amount(account(0x55), word(42), vec![word(7)]);
    assert_eq!(order, Err(Error::UnauthorizedCaller));
}

#[test]
fn fulfillment_from_stranger_is_unauthorized_for_unknown_nonce() {
    let token = deployed();
    assert_eq!(
        token.mint_random_amount(recipient(), word(1), vec![word(7)]),
        Err(Error::UnauthorizedCaller)
    );
    assert_eq!(
        token.mint_random_amount(manager(), word(1), Vec::new()),
        Err(Error::UnauthorizedCaller)
    );
}

#[test]
fn fulfillment_without_values_is_malformed() {
    let mut token = deployed();
    assert!(token.mint_to(recipient(), OracleReply::Nonce(word(42))).is_ok());
    assert_eq!(
        token.mint_random_amount(oracle(), word(42), Vec::new()),
        Err(Error::MalformedFulfillment)
    );
}

#[test]
fn fulfillment_reads_only_the_first_value() {
    let mut token = deployed();
    assert!(token.mint_to(recipient(), OracleReply::Nonce(word(3))).is_ok());
    let order = token.mint_random_amount(oracle(), word(3), vec![word(99), word(7)]);
    match order {
        Ok(order) => assert_eq!(order.call.value, word(100)),
        Err(e) => panic!("unexpected failure: {:?}", e),
    }
}

#[test]
fn fulfillment_of_unknown_nonce_mints_to_zero_address() {
    let token = deployed();
    let order = token.mint_random_amount(oracle(), word(5), vec![word(0)]);
    let expected = MintOrder {
        nonce: word(5),
        call: MintCall { token: token_address(), account: Address::zero(), value: word(1) },
    };
    assert_eq!(order, Ok(expected));
}

#[test]
fn failed_mint_is_reported_and_entry_stays() {
    let mut token = deployed();
    assert!(token.mint_to(recipient(), OracleReply::Nonce(word(42))).is_ok());
    let order = match token.mint_random_amount(oracle(), word(42), vec![word(7)]) {
        Ok(order) => order,
        Err(e) => panic!("unexpected failure: {:?}", e),
    };
    assert_eq!(LotteryToken::conclude_mint(order, MintReply::Failed), Err(Error::MintFailed));
    assert_eq!(token.recipient(word(42)), Some(recipient()));
    let again = token.mint_random_amount(oracle(), word(42), vec![word(7)]);
    assert_eq!(again, Ok(order));
}

#[test]
fn second_request_with_same_nonce_replaces_recipient() {
    let mut token = deployed();
    assert!(token.mint_to(recipient(), OracleReply::Nonce(word(42))).is_ok());
    assert!(token.mint_to(account(0x66), OracleReply::Nonce(word(42))).is_ok());
    assert_eq!(token.recipient(word(42)), Some(account(0x66)));
}
