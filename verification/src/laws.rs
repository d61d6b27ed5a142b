//! Laws relating the ledger operations across calls.
//!
//! The per-operation guarantees stand in the operations' own contracts in
//! [`crate::ledger`]; the proofs here state what follows for pairs of
//! operations, over the same transition relations those contracts use.

use vstd::prelude::*;

use crate::error::BankError;
use crate::ledger::Ledger;
use crate::store::sum_balances;

verus! {

/// The ledger's balances always reconcile: in every reachable state — the
/// invariant holds after `new` and after each successful operation — the
/// pool's recorded total equals the sum of all holder balances.
pub proof fn lemma_pool_total_matches_holders(ledger: Ledger)
    requires
        ledger.inv(),
        ledger.pool_initialized(),
    ensures
        ledger.pool_total() == sum_balances(ledger.store.holders@),
{
}

/// An accepted deposit enables the matching withdrawal: after a deposit of
/// `amount` for `caller`, a withdrawal of the same amount for the same caller
/// is accepted.
pub proof fn lemma_deposit_enables_withdraw(pre: Ledger, mid: Ledger, caller: Seq<u8>, amount: u64)
    requires
        Ledger::deposit_accepted(pre, mid, caller, amount),
    ensures
        mid.can_withdraw(caller, amount),
{
}

/// Round trip: a deposit of `amount` for `caller` followed by a withdrawal of
/// the same amount for the same caller returns the caller's balance and the
/// pool's total to their pre-deposit values, and every other holder's record
/// is exactly as it was.
pub proof fn lemma_deposit_withdraw_round_trip(
    pre: Ledger,
    mid: Ledger,
    post: Ledger,
    caller: Seq<u8>,
    amount: u64,
)
    requires
        Ledger::deposit_accepted(pre, mid, caller, amount),
        Ledger::withdraw_accepted(mid, post, caller, amount),
    ensures
        post.balance_of(caller) == pre.balance_of(caller),
        post.pool_total() == pre.pool_total(),
        post.pool_owner() == pre.pool_owner(),
        post.pool_initialized(),
        forall|other: Seq<u8>|
            other != caller ==> post.has_holder(other) == pre.has_holder(other)
                && post.balance_of(other) == pre.balance_of(other),
{
    assert forall|other: Seq<u8>| other != caller implies post.has_holder(other)
        == pre.has_holder(other) && post.balance_of(other) == pre.balance_of(other) by {
        assert(mid.has_holder(other) == pre.has_holder(other));
        assert(mid.balance_of(other) == pre.balance_of(other));
    }
}

/// Holder records are never deleted: every record present before an accepted
/// deposit or withdrawal is still present after it. A zero balance is a kept
/// record, not an absence, and further deposits re-activate it.
pub proof fn lemma_records_never_deleted(pre: Ledger, post: Ledger, caller: Seq<u8>, amount: u64)
    requires
        Ledger::deposit_accepted(pre, post, caller, amount) || Ledger::withdraw_accepted(
            pre,
            post,
            caller,
            amount,
        ),
    ensures
        forall|identity: Seq<u8>| pre.has_holder(identity) ==> post.has_holder(identity),
{
    assert forall|identity: Seq<u8>| pre.has_holder(identity) implies post.has_holder(
        identity,
    ) by {
        if identity != caller {
            assert(post.has_holder(identity) == pre.has_holder(identity));
        }
    }
}

/// A balance query is a pure function of the ledger state: two queries for
/// the same caller with no mutation between them return the same result —
/// `Ledger::get_balance` ensures each result equals `balance_query`.
pub proof fn lemma_get_balance_idempotent(
    ledger: Ledger,
    caller: Seq<u8>,
    first: Result<u64, BankError>,
    second: Result<u64, BankError>,
)
    requires
        first == ledger.balance_query(caller),
        second == ledger.balance_query(caller),
    ensures
        first == second,
{
}

} // verus!
