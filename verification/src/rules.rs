//! The ledger core's validation and arithmetic on one coupled pair of
//! balances: a holder's balance and the pool's running total.
//!
//! Both functions are pure: they take the two balances as plain values and
//! return the updated pair, so the same rules apply whatever store the records
//! live in. All arithmetic is overflow/underflow-checked; an out-of-range
//! result is an explicit error, never a silent wrap.

use vstd::prelude::*;

use crate::error::BankError;

verus! {

/// The fixed minimum deposit in smallest units. A policy constant, not
/// runtime-configurable.
pub const MIN_DEPOSIT: u64 = 10_000_000;

/// Validates one deposit and applies it to a (holder balance, pool total)
/// pair. Fails with `DepositTooSmall` below the minimum and with
/// `ArithmeticOverflow` when either updated balance would leave the unsigned
/// 64-bit range; on success returns the two increased balances.
pub fn apply_deposit(balance: u64, total: u64, amount: u64) -> (r: Result<(u64, u64), BankError>)
    ensures
        r is Ok <==> amount >= MIN_DEPOSIT && balance + amount <= u64::MAX && total + amount
            <= u64::MAX,
        r matches Ok(p) ==> p.0 == balance + amount && p.1 == total + amount,
        amount < MIN_DEPOSIT ==> r == Err::<(u64, u64), BankError>(BankError::DepositTooSmall),
        amount >= MIN_DEPOSIT && (balance + amount > u64::MAX || total + amount > u64::MAX) ==> r
            == Err::<(u64, u64), BankError>(BankError::ArithmeticOverflow),
{
    if amount < MIN_DEPOSIT {
        return Err(BankError::DepositTooSmall);
    }
    let new_balance = match balance.checked_add(amount) {
        Some(b) => b,
        None => {
            return Err(BankError::ArithmeticOverflow);
        },
    };
    let new_total = match total.checked_add(amount) {
        Some(t) => t,
        None => {
            return Err(BankError::ArithmeticOverflow);
        },
    };
    Ok((new_balance, new_total))
}

/// Validates one withdrawal and applies it to a (holder balance, pool total)
/// pair. Fails with `InsufficientFunds` when the holder's balance does not
/// cover the amount; on success returns the two decreased balances. The pool
/// total must cover the holder's balance, which the ledger's invariant
/// guarantees, so the checked subtractions never underflow.
pub fn apply_withdraw(balance: u64, total: u64, amount: u64) -> (r: Result<(u64, u64), BankError>)
    requires
        balance <= total,
    ensures
        r is Ok <==> amount <= balance,
        r matches Ok(p) ==> p.0 == balance - amount && p.1 == total - amount,
        amount > balance ==> r == Err::<(u64, u64), BankError>(BankError::InsufficientFunds),
{
    if amount > balance {
        return Err(BankError::InsufficientFunds);
    }
    let new_balance = match balance.checked_sub(amount) {
        Some(b) => b,
        None => {
            return Err(BankError::ArithmeticOverflow);
        },
    };
    let new_total = match total.checked_sub(amount) {
        Some(t) => t,
        None => {
            return Err(BankError::ArithmeticOverflow);
        },
    };
    Ok((new_balance, new_total))
}

} // verus!
