//! Withdrawal of funds from a non-negative balance.
//!
//! A withdrawal takes a balance and a requested amount and either returns the
//! new balance, `balance - amount`, or fails with [`ErrorKind::InsufficientFunds`]
//! when the request strictly exceeds the funds available. The operation is pure:
//! a successful withdrawal produces a new balance value and never underflows,
//! because the insufficient-funds check rules the underflowing inputs out.
//!
//! The operation is offered at three levels of type safety: on raw `u64`
//! values ([`withdraw_funds`]) and on the nominal types [`Balance`] and
//! [`Amount`] ([`withdraw_funds_even_better`], [`withdraw_funds_best`]),
//! which the type system keeps from being swapped at a call site.

use vstd::prelude::*;

verus! {

/// The single failure mode of a withdrawal: the requested amount strictly
/// exceeds the available balance.
#[derive(Clone, Copy, Debug, PartialEq, Eq, Structural)]
pub enum ErrorKind {
    InsufficientFunds,
}

/// Funds currently available, as a non-negative quantity.
#[derive(Clone, Copy, Debug, PartialEq, Eq, Structural)]
pub struct Balance(u64);

/// A quantity requested for withdrawal, as a non-negative quantity.
#[derive(Clone, Copy, Debug, PartialEq, Eq, Structural)]
pub struct Amount(u64);

impl View for Balance {
    type V = u64;

    closed spec fn view(&self) -> u64 {
        self.0
    }
}

impl View for Amount {
    type V = u64;

    closed spec fn view(&self) -> u64 {
        self.0
    }
}

impl Balance {
    /// The balance holding exactly `value` units.
    pub closed spec fn spec_new(value: u64) -> Balance {
        Balance(value)
    }

    /// Wraps a raw number of units as a `Balance`.
    #[verifier::when_used_as_spec(spec_new)]
    pub fn new(value: u64) -> (balance: Balance)
        ensures
            balance == Balance::spec_new(value),
            balance@ == value,
    {
        Balance(value)
    }

    /// Unwraps the underlying number of units.
    pub fn get(&self) -> (value: u64)
        ensures
            value == self@,
    {
        self.0
    }
}

impl Amount {
    /// The amount requesting exactly `value` units.
    pub closed spec fn spec_new(value: u64) -> Amount {
        Amount(value)
    }

    /// Wraps a raw number of units as an `Amount`.
    #[verifier::when_used_as_spec(spec_new)]
    pub fn new(value: u64) -> (amount: Amount)
        ensures
            amount == Amount::spec_new(value),
            amount@ == value,
    {
        Amount(value)
    }

    /// Unwraps the underlying number of units.
    pub fn get(&self) -> (value: u64)
        ensures
            value == self@,
    {
        self.0
    }
}

/// Wrapping a raw value as a `Balance` and unwrapping it again yields the
/// original value.
pub proof fn lemma_balance_round_trip(value: u64)
    ensures
        Balance::spec_new(value)@ == value,
{
}

/// Wrapping a raw value as an `Amount` and unwrapping it again yields the
/// original value.
pub proof fn lemma_amount_round_trip(value: u64)
    ensures
        Amount::spec_new(value)@ == value,
{
}

/// Withdraws `amount_to_withdraw` from `balance` on raw values.
///
/// Whenever the request does not exceed the balance — a request for the whole
/// balance included — it succeeds with the new balance, `balance - amount`;
/// a strictly larger request fails with `ErrorKind::InsufficientFunds`, the
/// only failure mode.
pub fn withdraw_funds(balance: u64, amount_to_withdraw: u64) -> (result: Result<
    u64,
    ErrorKind,
>)
    ensures
        amount_to_withdraw <= balance ==> result == Ok::<u64, ErrorKind>(
            (balance - amount_to_withdraw) as u64,
        ),
        amount_to_withdraw > balance ==> result == Err::<u64, ErrorKind>(
            ErrorKind::InsufficientFunds,
        ),
{
    if amount_to_withdraw > balance {
        return Err(ErrorKind::InsufficientFunds);
    }
    Ok(balance - amount_to_withdraw)
}

/// Withdraws `amount_to_withdraw` from `balance` on the nominal types.
///
/// Behaves exactly as [`withdraw_funds`] does on the underlying values:
/// success, with the new balance, exactly when the request does not exceed
/// the balance, and `ErrorKind::InsufficientFunds` otherwise.
pub fn withdraw_funds_even_better(balance: Balance, amount_to_withdraw: Amount) -> (result: Result<
    Balance,
    ErrorKind,
>)
    ensures
        amount_to_withdraw@ <= balance@ ==> result == Ok::<Balance, ErrorKind>(
            Balance::spec_new((balance@ - amount_to_withdraw@) as u64),
        ),
        amount_to_withdraw@ > balance@ ==> result == Err::<Balance, ErrorKind>(
            ErrorKind::InsufficientFunds,
        ),
{
    if amount_to_withdraw.get() > balance.get() {
        return Err(ErrorKind::InsufficientFunds);
    }
    Ok(Balance::new(balance.get() - amount_to_withdraw.get()))
}

/// Withdraws `amount_to_withdraw` from `balance` on the nominal types.
///
/// The same contract as [`withdraw_funds_even_better`]: the three encodings
/// of the operation are semantically identical.
pub fn withdraw_funds_best(balance: Balance, amount_to_withdraw: Amount) -> (result: Result<
    Balance,
    ErrorKind,
>)
    ensures
        amount_to_withdraw@ <= balance@ ==> result == Ok::<Balance, ErrorKind>(
            Balance::spec_new((balance@ - amount_to_withdraw@) as u64),
        ),
        amount_to_withdraw@ > balance@ ==> result == Err::<Balance, ErrorKind>(
            ErrorKind::InsufficientFunds,
        ),
{
    let funds: u64 = balance.get();
    let requested: u64 = amount_to_withdraw.get();
    if requested > funds {
        return Err(ErrorKind::InsufficientFunds);
    }
    Ok(Balance::new(funds - requested))
}

} // verus!
