//! The ledger core: validation and atomic mutation of the pool record and the
//! holder records.
//!
//! Every operation either applies completely or leaves the ledger exactly as
//! it was; the contracts say which, and on which inputs. The central invariant
//! [`Ledger::inv`] — the pool's recorded total equals the sum of all holder
//! balances — is established by `new` and preserved by every operation.
//!
//! The external custody transfer (moving the underlying value between the
//! caller's and the pool's custody accounts) is the host's part: a host
//! validates an operation with [`Ledger::check_deposit`] or
//! [`Ledger::check_withdraw`], performs the transfer, and commits the record
//! updates with [`Ledger::deposit`] or [`Ledger::withdraw`] only when the
//! transfer succeeded, so that either all effects become visible or none do.

use vstd::prelude::*;

use crate::error::BankError;
use crate::registry::AccountId;
use crate::registry::derive_holder_id;
use crate::rules::MIN_DEPOSIT;
use crate::rules::apply_deposit;
use crate::rules::apply_withdraw;
use crate::state::Bank;
use crate::store::RecordStore;
use crate::store::lemma_lookup_le_sum;
use crate::store::lemma_sum_nonneg;
use crate::store::sum_balances;

verus! {

/// The ledger: the record store together with the operations on it.
pub struct Ledger {
    /// The persisted records.
    pub store: RecordStore,
}

impl Ledger {
    /// The ledger's invariant: the store is well-formed; once the pool record
    /// exists, its recorded total equals the sum of all holder balances; and
    /// holder records exist only once the pool does.
    pub open spec fn inv(self) -> bool {
        &&& self.store.wf()
        &&& match self.store.pool {
            Some(bank) => bank.total_balance == sum_balances(self.store.holders@),
            None => self.store.holders@.len() == 0,
        }
    }

    /// Whether the pool record has been created.
    pub open spec fn pool_initialized(self) -> bool {
        self.store.pool is Some
    }

    /// The identity recorded as the pool's owner; meaningful once the pool is
    /// initialized.
    pub open spec fn pool_owner(self) -> Seq<u8> {
        match self.store.pool {
            Some(bank) => bank.owner@,
            None => Seq::empty(),
        }
    }

    /// The pool's recorded total, or zero before initialization.
    pub open spec fn pool_total(self) -> u64 {
        match self.store.pool {
            Some(bank) => bank.total_balance,
            None => 0,
        }
    }

    /// Whether a record exists for this identity.
    pub open spec fn has_holder(self, identity: Seq<u8>) -> bool {
        self.store.holder_balance(identity) is Some
    }

    /// The balance recorded for this identity, counting an absent record as
    /// zero.
    pub open spec fn balance_of(self, identity: Seq<u8>) -> u64 {
        match self.store.holder_balance(identity) {
            Some(balance) => balance,
            None => 0,
        }
    }

    /// What a balance query returns: the recorded balance, or `RecordNotFound`
    /// where the holder has never deposited.
    pub open spec fn balance_query(self, identity: Seq<u8>) -> Result<u64, BankError> {
        if self.has_holder(identity) {
            Ok(self.balance_of(identity))
        } else {
            Err(BankError::RecordNotFound)
        }
    }

    /// When a deposit is accepted: the amount reaches the minimum, the pool
    /// exists, and the increased total still fits in 64 bits (under the
    /// invariant the holder's increased balance then fits as well).
    pub open spec fn can_deposit(self, amount: u64) -> bool {
        &&& amount >= MIN_DEPOSIT
        &&& self.pool_initialized()
        &&& self.pool_total() + amount <= u64::MAX
    }

    /// The error a rejected deposit fails with: a too-small amount is
    /// reported first, then a missing pool record, else the overflow.
    pub open spec fn deposit_error(self, amount: u64) -> BankError {
        if amount < MIN_DEPOSIT {
            BankError::DepositTooSmall
        } else if !self.pool_initialized() {
            BankError::RecordNotFound
        } else {
            BankError::ArithmeticOverflow
        }
    }

    /// How an accepted deposit relates the ledger before and after: the
    /// caller's balance and the pool total grow by the amount, the caller's
    /// record exists afterwards, and nothing else changes.
    pub open spec fn deposit_accepted(
        pre: Ledger,
        post: Ledger,
        caller: Seq<u8>,
        amount: u64,
    ) -> bool {
        &&& pre.can_deposit(amount)
        &&& post.pool_initialized()
        &&& post.pool_owner() == pre.pool_owner()
        &&& post.pool_total() == pre.pool_total() + amount
        &&& post.has_holder(caller)
        &&& post.balance_of(caller) == pre.balance_of(caller) + amount
        &&& forall|other: Seq<u8>|
            other != caller ==> post.has_holder(other) == pre.has_holder(other)
                && post.balance_of(other) == pre.balance_of(other)
    }

    /// When a withdrawal is accepted: the caller's record exists and covers
    /// the amount.
    pub open spec fn can_withdraw(self, caller: Seq<u8>, amount: u64) -> bool {
        &&& self.has_holder(caller)
        &&& self.balance_of(caller) >= amount
    }

    /// How an accepted withdrawal relates the ledger before and after: the
    /// caller's balance and the pool total shrink by the amount, the caller's
    /// record remains (a zero balance is kept, never deleted), and nothing
    /// else changes.
    pub open spec fn withdraw_accepted(
        pre: Ledger,
        post: Ledger,
        caller: Seq<u8>,
        amount: u64,
    ) -> bool {
        &&& pre.can_withdraw(caller, amount)
        &&& post.pool_initialized()
        &&& post.pool_owner() == pre.pool_owner()
        &&& post.pool_total() == pre.pool_total() - amount
        &&& post.has_holder(caller)
        &&& post.balance_of(caller) == pre.balance_of(caller) - amount
        &&& forall|other: Seq<u8>|
            other != caller ==> post.has_holder(other) == pre.has_holder(other)
                && post.balance_of(other) == pre.balance_of(other)
    }

    /// An empty ledger: no pool record, no holder records.
    pub fn new() -> (r: Ledger)
        ensures
            r.inv(),
            !r.pool_initialized(),
            r.pool_total() == 0,
            forall|identity: Seq<u8>| !r.has_holder(identity),
    {
        Ledger { store: RecordStore::new() }
    }

    /// Reads the pool record as a whole, if it has been created.
    pub fn pool_record(&self) -> (r: Option<Bank>)
        ensures
            r == self.store.pool,
    {
        self.store.get_pool()
    }

    /// Creates the pool record with the caller as owner and a zero total.
    /// Re-initialization is rejected with `AlreadyInitialized`, so an existing
    /// total is never silently erased; the ledger is then left unchanged.
    pub fn initialize(&mut self, caller: &AccountId) -> (r: Result<(), BankError>)
        requires
            old(self).inv(),
        ensures
            final(self).inv(),
            r is Ok <==> !old(self).pool_initialized(),
            r is Err ==> *final(self) == *old(self) && r == Err::<(), BankError>(
                BankError::AlreadyInitialized,
            ),
            r is Ok ==> final(self).pool_initialized() && final(self).pool_owner() == caller@
                && final(self).pool_total() == 0 && final(self).store.holders@ == old(
                self,
            ).store.holders@,
    {
        match self.store.get_pool() {
            Some(_) => Err(BankError::AlreadyInitialized),
            None => {
                self.store.set_pool(Bank { owner: *caller, total_balance: 0 });
                Ok(())
            },
        }
    }

    /// Read-only balance query: the caller's own recorded balance, or
    /// `RecordNotFound` where the caller has never deposited. The result is a
    /// pure function of the ledger state, so repeated queries with no
    /// intervening mutation agree.
    pub fn get_balance(&self, caller: &AccountId) -> (r: Result<u64, BankError>)
        requires
            self.inv(),
        ensures
            r == self.balance_query(caller@),
    {
        let id = derive_holder_id(caller);
        match self.store.find_holder(&id) {
            Some(balance) => Ok(balance),
            None => Err(BankError::RecordNotFound),
        }
    }

    /// Validates a deposit without applying it: returns `Ok` exactly when
    /// [`Ledger::deposit`] would accept it, and the same error otherwise. A
    /// host calls this before performing the custody transfer, so that a
    /// failing request leaves both the records and the custodied value
    /// untouched.
    pub fn check_deposit(&self, amount: u64) -> (r: Result<(), BankError>)
        requires
            self.inv(),
        ensures
            r is Ok <==> self.can_deposit(amount),
            r matches Err(e) ==> e == self.deposit_error(amount),
    {
        if amount < MIN_DEPOSIT {
            return Err(BankError::DepositTooSmall);
        }
        match self.store.get_pool() {
            None => Err(BankError::RecordNotFound),
            Some(bank) => match bank.total_balance.checked_add(amount) {
                None => Err(BankError::ArithmeticOverflow),
                Some(_) => Ok(()),
            },
        }
    }

    /// Applies a deposit of `amount` for `caller`: creates the caller's
    /// record if absent, then increases its balance and the pool total by the
    /// amount, both overflow-checked. Rejected deposits — below the minimum,
    /// before initialization, or out of range — leave the ledger unchanged.
    pub fn deposit(&mut self, caller: &AccountId, amount: u64) -> (r: Result<(), BankError>)
        requires
            old(self).inv(),
        ensures
            final(self).inv(),
            r is Ok <==> old(self).can_deposit(amount),
            r is Ok ==> Ledger::deposit_accepted(*old(self), *final(self), caller@, amount),
            r is Err ==> *final(self) == *old(self),
            r matches Err(e) ==> e == old(self).deposit_error(amount),
            amount < MIN_DEPOSIT ==> r == Err::<(), BankError>(BankError::DepositTooSmall)
                && *final(self) == *old(self),
    {
        let id = derive_holder_id(caller);
        if amount < MIN_DEPOSIT {
            return Err(BankError::DepositTooSmall);
        }
        let bank = match self.store.get_pool() {
            Some(bank) => bank,
            None => {
                return Err(BankError::RecordNotFound);
            },
        };
        let old_balance = match self.store.find_holder(&id) {
            Some(balance) => balance,
            None => 0,
        };
        proof {
            if self.store.holder_balance(caller@) is Some {
                lemma_lookup_le_sum(self.store.holders@, caller@, old_balance);
            } else {
                lemma_sum_nonneg(self.store.holders@);
            }
        }
        let (new_balance, new_total) = match apply_deposit(old_balance, bank.total_balance, amount) {
            Ok(pair) => pair,
            Err(e) => {
                return Err(e);
            },
        };
        self.store.upsert_holder(id, new_balance);
        self.store.set_pool(Bank { owner: bank.owner, total_balance: new_total });
        Ok(())
    }

    /// Validates a withdrawal without applying it: returns `Ok` exactly when
    /// [`Ledger::withdraw`] would accept it, and `InsufficientFunds`
    /// otherwise. A host calls this before performing the custody transfer.
    pub fn check_withdraw(&self, caller: &AccountId, amount: u64) -> (r: Result<(), BankError>)
        requires
            self.inv(),
        ensures
            r is Ok <==> self.can_withdraw(caller@, amount),
            r matches Err(e) ==> e == BankError::InsufficientFunds,
    {
        let id = derive_holder_id(caller);
        match self.store.find_holder(&id) {
            None => Err(BankError::InsufficientFunds),
            Some(balance) => {
                if amount > balance {
                    Err(BankError::InsufficientFunds)
                } else {
                    Ok(())
                }
            },
        }
    }

    /// Applies a withdrawal of `amount` for `caller`: decreases the caller's
    /// balance and the pool total by the amount, both underflow-checked. A
    /// withdrawal of more than the recorded balance — or by a caller without a
    /// record — is rejected with `InsufficientFunds` and leaves the ledger
    /// unchanged. The caller's record is kept even at balance zero.
    pub fn withdraw(&mut self, caller: &AccountId, amount: u64) -> (r: Result<(), BankError>)
        requires
            old(self).inv(),
        ensures
            final(self).inv(),
            r is Ok <==> old(self).can_withdraw(caller@, amount),
            r is Ok ==> Ledger::withdraw_accepted(*old(self), *final(self), caller@, amount),
            r is Err ==> *final(self) == *old(self) && r == Err::<(), BankError>(
                BankError::InsufficientFunds,
            ),
            !old(self).can_withdraw(caller@, amount) ==> r == Err::<(), BankError>(
                BankError::InsufficientFunds,
            ) && *final(self) == *old(self),
    {
        let id = derive_holder_id(caller);
        let old_balance = match self.store.find_holder(&id) {
            Some(balance) => balance,
            None => {
                return Err(BankError::InsufficientFunds);
            },
        };
        if amount > old_balance {
            return Err(BankError::InsufficientFunds);
        }
        proof {
            lemma_lookup_le_sum(self.store.holders@, caller@, old_balance);
            if self.store.holders@.len() == 0 {
                assert(self.store.holder_balance(caller@) is None);
            }
        }
        let bank = match self.store.get_pool() {
            Some(bank) => bank,
            None => {
                return Err(BankError::InsufficientFunds);
            },
        };
        let (new_balance, new_total) = match apply_withdraw(
            old_balance,
            bank.total_balance,
            amount,
        ) {
            Ok(pair) => pair,
            Err(e) => {
                return Err(e);
            },
        };
        self.store.upsert_holder(id, new_balance);
        self.store.set_pool(Bank { owner: bank.owner, total_balance: new_total });
        Ok(())
    }
}

} // verus!
