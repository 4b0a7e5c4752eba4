use withdraw::{
    withdraw_funds, withdraw_funds_best, withdraw_funds_even_better, Amount, Balance, ErrorKind,
};

#[test]
fn zero_from_zero_succeeds() {
    assert_eq!(withdraw_funds(0, 0), Ok(0));
}

#[test]
fn entire_balance_succeeds_with_zero() {
    assert_eq!(withdraw_funds(100, 100), Ok(0));
}

#[test]
fn one_over_balance_fails() {
    assert_eq!(withdraw_funds(100, 101), Err(ErrorKind::InsufficientFunds));
}

#[test]
fn partial_withdrawal_succeeds() {
    assert_eq!(withdraw_funds(500, 200), Ok(300));
}

#[test]
fn nothing_from_largest_balance_succeeds() {
    assert_eq!(withdraw_funds(u64::MAX, 0), Ok(u64::MAX));
}

#[test]
fn largest_request_from_empty_balance_fails() {
    assert_eq!(withdraw_funds(0, u64::MAX), Err(ErrorKind::InsufficientFunds));
}

#[test]
fn balance_wrap_unwrap_round_trip() {
    assert_eq!(Balance::new(0).get(), 0);
    assert_eq!(Balance::new(42).get(), 42);
    assert_eq!(Balance::new(u64::MAX).get(), u64::MAX);
}

#[test]
fn amount_wrap_unwrap_round_trip() {
    assert_eq!(Amount::new(0).get(), 0);
    assert_eq!(Amount::new(42).get(), 42);
    assert_eq!(Amount::new(u64::MAX).get(), u64::MAX);
}

#[test]
fn even_better_partial_withdrawal_succeeds() {
    let result = withdraw_funds_even_better(Balance::new(500), Amount::new(200));
    assert_eq!(result, Ok(Balance::new(300)));
}

#[test]
fn even_better_entire_balance_succeeds_with_zero() {
    let result = withdraw_funds_even_better(Balance::new(100), Amount::new(100));
    assert_eq!(result, Ok(Balance::new(0)));
}

#[test]
fn even_better_one_over_balance_fails() {
    let result = withdraw_funds_even_better(Balance::new(100), Amount::new(101));
    assert_eq!(result, Err(ErrorKind::InsufficientFunds));
}

#[test]
fn best_partial_withdrawal_succeeds() {
    let result = withdraw_funds_best(Balance::new(500), Amount::new(200));
    assert_eq!(result.map(|b| b.get()), Ok(300));
}

#[test]
fn best_zero_from_zero_succeeds() {
    let result = withdraw_funds_best(Balance::new(0), Amount::new(0));
    assert_eq!(result.map(|b| b.get()), Ok(0));
}

#[test]
fn best_one_over_balance_fails() {
    let result = withdraw_funds_best(Balance::new(100), Amount::new(101));
    assert_eq!(result, Err(ErrorKind::InsufficientFunds));
}
