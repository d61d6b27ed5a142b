use solana_bank::registry::AccountId;
use solana_bank::registry::derive_holder_id;
use solana_bank::registry::derive_pool_id;
use solana_bank::rules::MIN_DEPOSIT;
use solana_bank::rules::apply_deposit;
use solana_bank::rules::apply_withdraw;
use solana_bank::error::BankError;

#[test]
fn account_id_comparison_is_bytewise() {
    let a = AccountId::new([7; 32]);
    let b = AccountId::new([7; 32]);
    let mut other_bytes = [7u8; 32];
    other_bytes[31] = 8;
    let c = AccountId::new(other_bytes);
    assert!(a.same(&b));
    assert!(b.same(&a));
    assert!(!a.same(&c));
}

#[test]
fn derived_ids_separate_records() {
    let a = AccountId::new([1; 32]);
    let b = AccountId::new([2; 32]);
    let pool = derive_pool_id();
    let holder_a = derive_holder_id(&a);
    let holder_a_again = derive_holder_id(&a);
    let holder_b = derive_holder_id(&b);
    assert!(pool.same(&derive_pool_id()));
    assert!(holder_a.same(&holder_a_again));
    assert!(!holder_a.same(&holder_b));
    assert!(!pool.same(&holder_a));
    assert!(!holder_b.same(&pool));
}

#[test]
fn apply_deposit_exact_values() {
    assert_eq!(apply_deposit(5, 7, 10_000_000), Ok((10_000_005, 10_000_007)));
    assert_eq!(apply_deposit(0, 0, MIN_DEPOSIT), Ok((10_000_000, 10_000_000)));
    assert_eq!(apply_deposit(0, 0, MIN_DEPOSIT - 1), Err(BankError::DepositTooSmall));
    assert_eq!(apply_deposit(u64::MAX, u64::MAX, MIN_DEPOSIT), Err(BankError::ArithmeticOverflow));
    assert_eq!(
        apply_deposit(1, u64::MAX - 5_000_000, 10_000_000),
        Err(BankError::ArithmeticOverflow)
    );
}

#[test]
fn apply_withdraw_exact_values() {
    assert_eq!(apply_withdraw(20, 50, 5), Ok((15, 45)));
    assert_eq!(apply_withdraw(20, 50, 20), Ok((0, 30)));
    assert_eq!(apply_withdraw(20, 50, 21), Err(BankError::InsufficientFunds));
    assert_eq!(apply_withdraw(0, 0, 1), Err(BankError::InsufficientFunds));
}
