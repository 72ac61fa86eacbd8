use fee_ticker::{Address, FeeTokenValidator, Token};
use num::rational::Ratio;
use num::BigUint;

fn ratio(n: u64, d: u64) -> Ratio<BigUint> {
    Ratio::new(BigUint::from(n), BigUint::from(d))
}

fn listed() -> Token {
    Token { id: 3, address: Address { upper: 7, lower: 7 }, decimals: 6 }
}

fn other() -> Token {
    Token { id: 4, address: Address { upper: 8, lower: 8 }, decimals: 18 }
}

fn validator() -> FeeTokenValidator {
    // Observations count for 100 seconds; the threshold is a volume of 500.
    FeeTokenValidator::new(100, ratio(500, 1), vec![listed().address])
}

#[test]
fn listed_token_is_allowed_without_an_entry() {
    let v = validator();
    assert!(v.is_listed(listed().address));
    assert!(!v.is_listed(other().address));
    assert!(v.token_allowed(&listed(), 1_000));
}

#[test]
fn listed_token_is_allowed_with_zero_volume() {
    let mut v = validator();
    v.update_token(listed(), ratio(0, 1), 1_000);
    assert!(v.token_allowed(&listed(), 1_000));
    assert!(v.token_allowed(&listed(), 1_000_000));
}

#[test]
fn unknown_token_is_not_allowed() {
    let v = validator();
    assert!(!v.token_allowed(&other(), 1_000));
}

#[test]
fn stale_entry_is_not_allowed_whatever_the_volume() {
    let mut v = validator();
    v.update_token(other(), ratio(u64::MAX, 1), 1_000);
    assert!(v.token_allowed(&other(), 1_100));
    assert!(!v.token_allowed(&other(), 1_101));
    assert!(!v.token_allowed(&other(), u64::MAX));
}

#[test]
fn fresh_entry_is_allowed_from_the_threshold_up() {
    let mut v = validator();
    v.update_token(other(), ratio(499, 1), 1_000);
    assert!(!v.token_allowed(&other(), 1_050));
    v.update_token(other(), ratio(500, 1), 1_010);
    assert!(v.token_allowed(&other(), 1_050));
    v.update_token(other(), ratio(1001, 2), 1_020);
    assert!(v.token_allowed(&other(), 1_050));
    v.update_token(other(), ratio(999, 2), 1_030);
    assert!(!v.token_allowed(&other(), 1_050));
}

#[test]
fn entry_observed_after_now_is_fresh() {
    let mut v = validator();
    v.update_token(other(), ratio(600, 1), 2_000);
    assert!(v.token_allowed(&other(), 1_000));
}

#[test]
fn failed_observation_leaves_the_cache() {
    let mut v = validator();
    assert!(v.apply_observation(other(), Some(ratio(600, 1)), 1_000));
    assert!(!v.apply_observation(other(), None, 1_090));
    assert!(v.token_allowed(&other(), 1_100));
    assert!(!v.token_allowed(&other(), 1_101));
    assert!(v.apply_observation(other(), Some(ratio(600, 1)), 1_090));
    assert!(v.token_allowed(&other(), 1_101));
}
