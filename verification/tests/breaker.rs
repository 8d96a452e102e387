use webhooks::circuit_breaker::CircuitBreaker;
use webhooks::circuit_breaker::Error::{Closed, Open, Rejected};

fn ok() -> Result<u8, u8> {
    Ok(0)
}

fn err() -> Result<u8, u8> {
    Err(255)
}

#[test]
fn successful_calls_doesnt_close_the_endpoint() {
    let mut sut = CircuitBreaker::new();
    let key = "key".to_string();

    assert_eq!(Ok(0), sut.call(&key, ok));
    assert_eq!(Ok(0), sut.call(&key, ok));
    assert_eq!(Ok(0), sut.call(&key, ok));
    assert_eq!(Ok(0), sut.call(&key, ok));
    assert_eq!(Ok(0), sut.call(&key, ok));
    assert_eq!(Ok(0), sut.call(&key, ok));
    assert_eq!(Ok(0), sut.call(&key, ok));
    assert_eq!(Ok(0), sut.call(&key, ok));
    assert_eq!(Ok(0), sut.call(&key, ok));
}

#[test]
fn erroneous_calls_close_the_endpoint() {
    let mut sut = CircuitBreaker::new();
    let key = "key".to_string();

    assert_eq!(Err(Open(255)), sut.call(&key, err));
    assert_eq!(Err(Open(255)), sut.call(&key, err));
    assert_eq!(Err(Closed(255)), sut.call(&key, err));
}

#[test]
fn calls_are_rejected_to_closed_endpoint() {
    let mut sut = CircuitBreaker::new();
    let key = "key".to_string();

    assert_eq!(Err(Open(255)), sut.call(&key, err));
    assert_eq!(Err(Open(255)), sut.call(&key, err));
    assert_eq!(Err(Closed(255)), sut.call(&key, err));

    assert_eq!(Err(Rejected), sut.call(&key, ok));
    assert_eq!(Err(Rejected), sut.call(&key, err));
}

#[test]
fn successful_call_resets_counter() {
    let mut sut = CircuitBreaker::new();
    let key = "key".to_string();

    assert_eq!(Err(Open(255)), sut.call(&key, err));
    assert_eq!(Err(Open(255)), sut.call(&key, err));
    assert_eq!(Ok(0), sut.call(&key, ok));

    assert_eq!(Err(Open(255)), sut.call(&key, err));
    assert_eq!(Err(Open(255)), sut.call(&key, err));
    assert_eq!(Ok(0), sut.call(&key, ok));
}

#[test]
fn every_key_has_own_counter() {
    let mut sut = CircuitBreaker::new();
    let key = "key".to_string();
    let key2 = "key2".to_string();

    assert_eq!(Err(Open(255)), sut.call(&key, err));
    assert_eq!(Err(Open(255)), sut.call(&key, err));
    assert_eq!(Err(Closed(255)), sut.call(&key, err));

    assert_eq!(Err(Open(255)), sut.call(&key2, err));
    assert_eq!(Err(Open(255)), sut.call(&key2, err));
    assert_eq!(Err(Closed(255)), sut.call(&key2, err));
}

#[test]
fn revive_closed() {
    let mut sut = CircuitBreaker::new();
    let key = "key".to_string();

    assert_eq!(Err(Open(255)), sut.call(&key, err));
    assert_eq!(Err(Open(255)), sut.call(&key, err));
    assert_eq!(Err(Closed(255)), sut.call(&key, err));

    sut.revive(&key);

    assert_eq!(Err(Open(255)), sut.call(&key, err));
    assert_eq!(Err(Open(255)), sut.call(&key, err));
    assert_eq!(Err(Closed(255)), sut.call(&key, err));

    sut.revive(&key);

    assert_eq!(Err(Open(255)), sut.call(&key, err));
}

#[test]
fn revive_opened_doesnt_reset_counter() {
    let mut sut = CircuitBreaker::new();
    let key = "key".to_string();

    assert_eq!(Err(Open(255)), sut.call(&key, err));
    assert_eq!(Err(Open(255)), sut.call(&key, err));

    sut.revive(&key);

    assert_eq!(Err(Closed(255)), sut.call(&key, err));
}
