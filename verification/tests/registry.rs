use lottery_token::address::Address;
use lottery_token::auth::CallbackAuthenticator;
use lottery_token::error::Error;
use lottery_token::registry::AddressRegistry;
use lottery_token::uint::U256;

fn nonce(x: u64) -> U256 {
    U256::from_limbs([x, 0, 0, 0])
}

fn addr(tag: u8) -> Address {
    let mut bytes = [0u8; 20];
    bytes[19] = tag;
    bytes[0] = 0xa0;
    Address::new(bytes)
}

#[test]
fn zero_address_has_zero_bytes() {
    assert_eq!(Address::zero().bytes, [0u8; 20]);
    assert_eq!(Address::zero(), Address::new([0u8; 20]));
}

#[test]
fn addresses_compare_by_all_bytes() {
    assert_eq!(addr(1), addr(1));
    assert_ne!(addr(1), addr(2));
    let mut first = [7u8; 20];
    let second = [7u8; 20];
    assert_eq!(Address::new(first), Address::new(second));
    first[0] = 8;
    assert_ne!(Address::new(first), Address::new(second));
    first[0] = 7;
    first[10] = 8;
    assert_ne!(Address::new(first), Address::new(second));
}

#[test]
fn empty_registry_knows_no_nonce() {
    let registry = AddressRegistry::new();
    assert_eq!(registry.find(nonce(42)), None);
    assert_eq!(registry.get(nonce(42)), Address::zero());
}

#[test]
fn put_then_get_returns_recipient() {
    let mut registry = AddressRegistry::new();
    registry.put(nonce(42), addr(1));
    assert_eq!(registry.get(nonce(42)), addr(1));
    assert_eq!(registry.find(nonce(42)), Some(addr(1)));
    assert_eq!(registry.find(nonce(43)), None);
}

#[test]
fn put_overwrites_prior_value() {
    let mut registry = AddressRegistry::new();
    registry.put(nonce(1), addr(1));
    registry.put(nonce(2), addr(2));
    registry.put(nonce(1), addr(3));
    assert_eq!(registry.get(nonce(1)), addr(3));
    assert_eq!(registry.get(nonce(2)), addr(2));
}

#[test]
fn registry_keys_by_all_limbs() {
    let mut registry = AddressRegistry::new();
    registry.put(U256::from_limbs([5, 0, 0, 0]), addr(1));
    registry.put(U256::from_limbs([5, 0, 0, 1]), addr(2));
    assert_eq!(registry.get(U256::from_limbs([5, 0, 0, 0])), addr(1));
    assert_eq!(registry.get(U256::from_limbs([5, 0, 0, 1])), addr(2));
    assert_eq!(registry.find(U256::from_limbs([5, 1, 0, 0])), None);
}

#[test]
fn zero_address_recipient_reads_like_absent() {
    let mut registry = AddressRegistry::new();
    registry.put(nonce(9), Address::zero());
    assert_eq!(registry.get(nonce(9)), registry.get(nonce(10)));
    assert_eq!(registry.find(nonce(9)), Some(Address::zero()));
    assert_eq!(registry.find(nonce(10)), None);
}

#[test]
fn authorize_accepts_the_oracle() {
    assert_eq!(CallbackAuthenticator::authorize(addr(5), addr(5)), Ok(()));
}

#[test]
fn authorize_rejects_anyone_else() {
    assert_eq!(
        CallbackAuthenticator::authorize(addr(6), addr(5)),
        Err(Error::UnauthorizedCaller)
    );
    assert_eq!(
        CallbackAuthenticator::authorize(Address::zero(), addr(5)),
        Err(Error::UnauthorizedCaller)
    );
}
