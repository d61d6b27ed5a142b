use solana_bank::error::BankError;
use solana_bank::ledger::Ledger;
use solana_bank::registry::AccountId;
use solana_bank::rules::MIN_DEPOSIT;

fn id(byte: u8) -> AccountId {
    AccountId::new([byte; 32])
}

#[test]
fn initialize_creates_empty_pool() {
    let mut ledger = Ledger::new();
    assert!(ledger.pool_record().is_none());
    let owner = id(1);
    assert_eq!(ledger.initialize(&owner), Ok(()));
    let bank = ledger.pool_record().unwrap();
    assert_eq!(bank.total_balance, 0);
    assert!(bank.owner.same(&owner));
}

#[test]
fn reinitialize_is_rejected() {
    let mut ledger = Ledger::new();
    assert_eq!(ledger.initialize(&id(1)), Ok(()));
    assert_eq!(ledger.deposit(&id(2), 20_000_000), Ok(()));
    assert_eq!(ledger.initialize(&id(3)), Err(BankError::AlreadyInitialized));
    let bank = ledger.pool_record().unwrap();
    assert_eq!(bank.total_balance, 20_000_000);
    assert!(bank.owner.same(&id(1)));
}

#[test]
fn deposit_at_minimum_updates_both_balances() {
    let mut ledger = Ledger::new();
    assert_eq!(ledger.initialize(&id(1)), Ok(()));
    assert_eq!(ledger.pool_record().unwrap().total_balance, 0);
    assert_eq!(ledger.deposit(&id(2), 10_000_000), Ok(()));
    assert_eq!(ledger.get_balance(&id(2)), Ok(10_000_000));
    assert_eq!(ledger.pool_record().unwrap().total_balance, 10_000_000);
}

#[test]
fn deposit_below_minimum_fails_without_state_change() {
    let mut ledger = Ledger::new();
    assert_eq!(ledger.initialize(&id(1)), Ok(()));
    assert_eq!(ledger.deposit(&id(2), 9_999_999), Err(BankError::DepositTooSmall));
    assert_eq!(ledger.get_balance(&id(2)), Err(BankError::RecordNotFound));
    assert_eq!(ledger.pool_record().unwrap().total_balance, 0);
    assert_eq!(ledger.check_deposit(9_999_999), Err(BankError::DepositTooSmall));
}

#[test]
fn deposit_below_minimum_fails_even_with_funds_present() {
    let mut ledger = Ledger::new();
    assert_eq!(ledger.initialize(&id(1)), Ok(()));
    assert_eq!(ledger.deposit(&id(2), 30_000_000), Ok(()));
    assert_eq!(ledger.deposit(&id(2), MIN_DEPOSIT - 1), Err(BankError::DepositTooSmall));
    assert_eq!(ledger.get_balance(&id(2)), Ok(30_000_000));
    assert_eq!(ledger.pool_record().unwrap().total_balance, 30_000_000);
}

#[test]
fn deposit_before_initialization_fails() {
    let mut ledger = Ledger::new();
    assert_eq!(ledger.deposit(&id(2), 10_000_000), Err(BankError::RecordNotFound));
    assert!(ledger.pool_record().is_none());
    assert_eq!(ledger.get_balance(&id(2)), Err(BankError::RecordNotFound));
}

#[test]
fn withdraw_more_than_balance_fails_without_state_change() {
    let mut ledger = Ledger::new();
    assert_eq!(ledger.initialize(&id(1)), Ok(()));
    assert_eq!(ledger.deposit(&id(2), 10_000_000), Ok(()));
    assert_eq!(ledger.withdraw(&id(2), 10_000_001), Err(BankError::InsufficientFunds));
    assert_eq!(ledger.get_balance(&id(2)), Ok(10_000_000));
    assert_eq!(ledger.pool_record().unwrap().total_balance, 10_000_000);
    assert_eq!(ledger.check_withdraw(&id(2), 10_000_001), Err(BankError::InsufficientFunds));
    assert_eq!(ledger.check_withdraw(&id(2), 10_000_000), Ok(()));
}

#[test]
fn withdraw_without_record_fails() {
    let mut ledger = Ledger::new();
    assert_eq!(ledger.initialize(&id(1)), Ok(()));
    assert_eq!(ledger.withdraw(&id(2), 1), Err(BankError::InsufficientFunds));
    assert_eq!(ledger.pool_record().unwrap().total_balance, 0);
}

#[test]
fn withdraw_exact_balance_empties_both() {
    let mut ledger = Ledger::new();
    assert_eq!(ledger.initialize(&id(1)), Ok(()));
    assert_eq!(ledger.deposit(&id(2), 10_000_000), Ok(()));
    assert_eq!(ledger.withdraw(&id(2), 10_000_000), Ok(()));
    assert_eq!(ledger.get_balance(&id(2)), Ok(0));
    assert_eq!(ledger.pool_record().unwrap().total_balance, 0);
}

#[test]
fn zero_balance_record_is_kept_and_reusable() {
    let mut ledger = Ledger::new();
    assert_eq!(ledger.initialize(&id(1)), Ok(()));
    assert_eq!(ledger.deposit(&id(2), 15_000_000), Ok(()));
    assert_eq!(ledger.withdraw(&id(2), 15_000_000), Ok(()));
    assert_eq!(ledger.get_balance(&id(2)), Ok(0));
    assert_eq!(ledger.deposit(&id(2), 10_000_000), Ok(()));
    assert_eq!(ledger.get_balance(&id(2)), Ok(10_000_000));
}

#[test]
fn round_trip_restores_balances() {
    let mut ledger = Ledger::new();
    assert_eq!(ledger.initialize(&id(1)), Ok(()));
    assert_eq!(ledger.deposit(&id(2), 25_000_000), Ok(()));
    assert_eq!(ledger.deposit(&id(3), 40_000_000), Ok(()));
    let balance_before = ledger.get_balance(&id(2)).unwrap();
    let total_before = ledger.pool_record().unwrap().total_balance;
    assert_eq!(ledger.deposit(&id(2), 12_345_678), Ok(()));
    assert_eq!(ledger.withdraw(&id(2), 12_345_678), Ok(()));
    assert_eq!(ledger.get_balance(&id(2)), Ok(balance_before));
    assert_eq!(ledger.pool_record().unwrap().total_balance, total_before);
    assert_eq!(ledger.get_balance(&id(3)), Ok(40_000_000));
}

#[test]
fn get_balance_is_idempotent() {
    let mut ledger = Ledger::new();
    assert_eq!(ledger.initialize(&id(1)), Ok(()));
    assert_eq!(ledger.deposit(&id(2), 11_000_000), Ok(()));
    let first = ledger.get_balance(&id(2));
    let second = ledger.get_balance(&id(2));
    assert_eq!(first, second);
    assert_eq!(first, Ok(11_000_000));
    let missing_first = ledger.get_balance(&id(9));
    let missing_second = ledger.get_balance(&id(9));
    assert_eq!(missing_first, missing_second);
    assert_eq!(missing_first, Err(BankError::RecordNotFound));
}

#[test]
fn deposit_overflow_is_rejected_without_state_change() {
    let mut ledger = Ledger::new();
    assert_eq!(ledger.initialize(&id(1)), Ok(()));
    assert_eq!(ledger.deposit(&id(2), u64::MAX), Ok(()));
    assert_eq!(ledger.get_balance(&id(2)), Ok(u64::MAX));
    assert_eq!(ledger.deposit(&id(3), 10_000_000), Err(BankError::ArithmeticOverflow));
    assert_eq!(ledger.get_balance(&id(2)), Ok(u64::MAX));
    assert_eq!(ledger.get_balance(&id(3)), Err(BankError::RecordNotFound));
    assert_eq!(ledger.pool_record().unwrap().total_balance, u64::MAX);
    assert_eq!(ledger.check_deposit(10_000_000), Err(BankError::ArithmeticOverflow));
}

#[test]
fn pool_total_equals_sum_of_holder_balances() {
    let mut ledger = Ledger::new();
    assert_eq!(ledger.initialize(&id(1)), Ok(()));
    assert_eq!(ledger.deposit(&id(2), 10_000_000), Ok(()));
    assert_eq!(ledger.deposit(&id(3), 20_000_000), Ok(()));
    assert_eq!(ledger.deposit(&id(4), 30_000_000), Ok(()));
    assert_eq!(ledger.withdraw(&id(3), 5_000_000), Ok(()));
    assert_eq!(ledger.deposit(&id(2), 10_000_000), Ok(()));
    let sum = ledger.get_balance(&id(2)).unwrap() + ledger.get_balance(&id(3)).unwrap()
        + ledger.get_balance(&id(4)).unwrap();
    assert_eq!(ledger.pool_record().unwrap().total_balance, sum);
    assert_eq!(sum, 65_000_000);
}

#[test]
fn balances_of_other_holders_are_untouched() {
    let mut ledger = Ledger::new();
    assert_eq!(ledger.initialize(&id(1)), Ok(()));
    assert_eq!(ledger.deposit(&id(2), 10_000_000), Ok(()));
    assert_eq!(ledger.deposit(&id(3), 20_000_000), Ok(()));
    assert_eq!(ledger.withdraw(&id(2), 4_000_000), Ok(()));
    assert_eq!(ledger.get_balance(&id(3)), Ok(20_000_000));
    assert_eq!(ledger.get_balance(&id(2)), Ok(6_000_000));
}
