//! The record store: the persisted mapping from derived identifier to record.
//!
//! The pool record is the singleton under the pool id; holder records are kept
//! as a sequence of entries, each keyed by the derived holder id, with
//! pairwise-distinct identities. Records are created by `set_pool` and
//! `upsert_holder` and never deleted.

use vstd::prelude::*;

use crate::registry::RecordId;
use crate::state::Bank;
use crate::state::UserAccount;

verus! {

/// One persisted holder record together with the derived identifier it is
/// keyed by.
#[derive(Clone, Copy, Debug)]
pub struct HolderEntry {
    /// The derived holder id; always the `Holder` variant in a well-formed
    /// store.
    pub id: RecordId,
    /// The stored record.
    pub account: UserAccount,
}

impl HolderEntry {
    /// The identity this entry is keyed by.
    pub open spec fn identity(self) -> Seq<u8> {
        self.id.identity()
    }

    /// The stored balance.
    pub open spec fn balance(self) -> u64 {
        self.account.balance
    }
}

/// The stored balance of the entry for `identity`, or `None` where no entry
/// carries that identity.
pub open spec fn lookup(s: Seq<HolderEntry>, identity: Seq<u8>) -> Option<u64>
    decreases s.len(),
{
    if s.len() == 0 {
        None
    } else if s.last().identity() == identity {
        Some(s.last().balance())
    } else {
        lookup(s.drop_last(), identity)
    }
}

/// The sum of all stored balances.
pub open spec fn sum_balances(s: Seq<HolderEntry>) -> int
    decreases s.len(),
{
    if s.len() == 0 {
        0
    } else {
        sum_balances(s.drop_last()) + s.last().balance()
    }
}

/// No two entries carry the same identity.
pub open spec fn unique_identities(s: Seq<HolderEntry>) -> bool {
    forall|i: int, j: int| 0 <= i < j < s.len() ==> s[i].identity() != s[j].identity()
}

/// Every entry is keyed by a holder id.
pub open spec fn all_holder_ids(s: Seq<HolderEntry>) -> bool {
    forall|i: int| 0 <= i < s.len() ==> s[i].id is Holder
}

/// The sum of stored balances is never negative.
pub proof fn lemma_sum_nonneg(s: Seq<HolderEntry>)
    ensures
        sum_balances(s) >= 0,
    decreases s.len(),
{
    if s.len() > 0 {
        lemma_sum_nonneg(s.drop_last());
    }
}

/// `lookup` finds exactly the entries that are there: it returns `None` for
/// an identity exactly when no entry carries it.
pub proof fn lemma_lookup_absent(s: Seq<HolderEntry>, identity: Seq<u8>)
    ensures
        lookup(s, identity) is None <==> forall|i: int|
            0 <= i < s.len() ==> s[i].identity() != identity,
    decreases s.len(),
{
    if s.len() > 0 {
        lemma_lookup_absent(s.drop_last(), identity);
        assert(s.last() == s[s.len() - 1]);
        assert(forall|i: int| 0 <= i < s.len() - 1 ==> s.drop_last()[i] == s[i]);
    }
}

/// With pairwise-distinct identities, `lookup` of the identity at position
/// `i` returns that entry's balance.
pub proof fn lemma_lookup_at(s: Seq<HolderEntry>, i: int)
    requires
        unique_identities(s),
        0 <= i < s.len(),
    ensures
        lookup(s, s[i].identity()) == Some(s[i].balance()),
    decreases s.len(),
{
    if i == s.len() - 1 {
        assert(s.last() == s[i]);
    } else {
        assert(s.last().identity() != s[i].identity());
        assert(s.drop_last()[i] == s[i]);
        lemma_lookup_at(s.drop_last(), i);
    }
}

/// A stored balance never exceeds the sum of all stored balances.
pub proof fn lemma_lookup_le_sum(s: Seq<HolderEntry>, identity: Seq<u8>, balance: u64)
    requires
        lookup(s, identity) == Some(balance),
    ensures
        balance <= sum_balances(s),
    decreases s.len(),
{
    if s.len() > 0 {
        if s.last().identity() == identity {
            lemma_sum_nonneg(s.drop_last());
        } else {
            lemma_lookup_le_sum(s.drop_last(), identity, balance);
        }
    }
}

/// Replacing the entry at position `i` changes the sum by the difference of
/// the balances.
pub proof fn lemma_sum_update(s: Seq<HolderEntry>, i: int, e: HolderEntry)
    requires
        0 <= i < s.len(),
    ensures
        sum_balances(s.update(i, e)) == sum_balances(s) - s[i].balance() + e.balance(),
    decreases s.len(),
{
    if i == s.len() - 1 {
        assert(s.update(i, e).drop_last() =~= s.drop_last());
        assert(s.update(i, e).last() == e);
    } else {
        assert(s.update(i, e).drop_last() =~= s.drop_last().update(i, e));
        assert(s.update(i, e).last() == s.last());
        lemma_sum_update(s.drop_last(), i, e);
    }
}

/// Replacing the entry at position `i` by one with the same identity changes
/// that identity's lookup to the new balance and no other identity's lookup.
pub proof fn lemma_lookup_update(s: Seq<HolderEntry>, i: int, e: HolderEntry, identity: Seq<u8>)
    requires
        unique_identities(s),
        0 <= i < s.len(),
        e.identity() == s[i].identity(),
    ensures
        identity == e.identity() ==> lookup(s.update(i, e), identity) == Some(e.balance()),
        identity != e.identity() ==> lookup(s.update(i, e), identity) == lookup(s, identity),
    decreases s.len(),
{
    if i == s.len() - 1 {
        assert(s.update(i, e).drop_last() =~= s.drop_last());
        assert(s.update(i, e).last() == e);
    } else {
        assert(s.update(i, e).drop_last() =~= s.drop_last().update(i, e));
        assert(s.update(i, e).last() == s.last());
        assert(s.last().identity() != s[i].identity());
        assert(s.drop_last()[i] == s[i]);
        lemma_lookup_update(s.drop_last(), i, e, identity);
    }
}

/// The persisted key-value mapping from derived identifier to record.
pub struct RecordStore {
    /// The singleton pool record, once created.
    pub pool: Option<Bank>,
    /// The holder records, one per identity that has ever deposited.
    pub holders: Vec<HolderEntry>,
}

impl RecordStore {
    /// Well-formedness: identities are pairwise distinct and every entry is
    /// keyed by a holder id.
    pub open spec fn wf(self) -> bool {
        &&& unique_identities(self.holders@)
        &&& all_holder_ids(self.holders@)
    }

    /// The balance stored for `identity`, or `None` where that holder has no
    /// record.
    pub open spec fn holder_balance(self, identity: Seq<u8>) -> Option<u64> {
        lookup(self.holders@, identity)
    }

    /// The sum of all stored holder balances.
    pub open spec fn holders_total(self) -> int {
        sum_balances(self.holders@)
    }

    /// An empty store: no pool record, no holder records.
    pub fn new() -> (r: RecordStore)
        ensures
            r.wf(),
            r.pool is None,
            r.holders@.len() == 0,
    {
        RecordStore { pool: None, holders: Vec::new() }
    }

    /// Reads the pool record.
    pub fn get_pool(&self) -> (r: Option<Bank>)
        ensures
            r == self.pool,
    {
        self.pool
    }

    /// Creates or overwrites the pool record; holder records are untouched.
    pub fn set_pool(&mut self, bank: Bank)
        ensures
            final(self).pool == Some(bank),
            final(self).holders@ == old(self).holders@,
    {
        self.pool = Some(bank);
    }

    /// The position of the entry keyed by `id`, if there is one.
    fn find_index(&self, id: &RecordId) -> (r: Option<usize>)
        requires
            self.wf(),
            *id is Holder,
        ensures
            match r {
                Some(i) => i < self.holders@.len() && self.holders@[i as int].identity()
                    == id.identity() && self.holder_balance(id.identity()) == Some(
                    self.holders@[i as int].balance(),
                ),
                None => self.holder_balance(id.identity()) is None,
            },
    {
        let n = self.holders.len();
        let mut i: usize = 0;
        while i < n
            invariant
                n == self.holders@.len(),
                0 <= i <= n,
                self.wf(),
                *id is Holder,
                forall|j: int| 0 <= j < i ==> self.holders@[j].identity() != id.identity(),
            decreases n - i,
        {
            if self.holders[i].id.same(id) {
                proof {
                    lemma_lookup_at(self.holders@, i as int);
                }
                return Some(i);
            }
            proof {
                assert(self.holders@[i as int].id is Holder);
                assert(!self.holders@[i as int].id.same_record(*id));
                assert(self.holders@[i as int].identity() != id.identity());
            }
            i = i + 1;
        }
        proof {
            lemma_lookup_absent(self.holders@, id.identity());
        }
        None
    }

    /// Reads the balance stored under a derived holder id.
    pub fn find_holder(&self, id: &RecordId) -> (r: Option<u64>)
        requires
            self.wf(),
            *id is Holder,
        ensures
            r == self.holder_balance(id.identity()),
    {
        match self.find_index(id) {
            Some(i) => Some(self.holders[i].account.balance),
            None => None,
        }
    }

    /// Creates the entry keyed by `id` with the given balance, or overwrites
    /// its balance where it already exists: the store's explicit
    /// get-or-create-and-set step. Every other record, and the pool record,
    /// is untouched.
    pub fn upsert_holder(&mut self, id: RecordId, balance: u64)
        requires
            old(self).wf(),
            id is Holder,
        ensures
            final(self).wf(),
            final(self).pool == old(self).pool,
            final(self).holder_balance(id.identity()) == Some(balance),
            forall|other: Seq<u8>|
                other != id.identity() ==> final(self).holder_balance(other) == old(
                    self,
                ).holder_balance(other),
            final(self).holders_total() == old(self).holders_total() - (match old(
                self,
            ).holder_balance(id.identity()) {
                Some(b) => b as int,
                None => 0,
            }) + balance,
    {
        let entry = HolderEntry { id, account: UserAccount { balance } };
        match self.find_index(&id) {
            Some(i) => {
                proof {
                    lemma_sum_update(self.holders@, i as int, entry);
                    assert forall|other: Seq<u8>| true implies lookup(
                        self.holders@.update(i as int, entry),
                        other,
                    ) == (if other == id.identity() {
                        Some(balance)
                    } else {
                        lookup(self.holders@, other)
                    }) by {
                        lemma_lookup_update(self.holders@, i as int, entry, other);
                    }
                    assert(unique_identities(self.holders@.update(i as int, entry)));
                    assert(all_holder_ids(self.holders@.update(i as int, entry)));
                }
                self.holders[i] = entry;
            },
            None => {
                proof {
                    lemma_lookup_absent(self.holders@, id.identity());
                    let pushed = self.holders@.push(entry);
                    assert(pushed.drop_last() =~= self.holders@);
                    assert(pushed.last() == entry);
                    assert(forall|j: int| 0 <= j < self.holders@.len() ==> pushed[j]
                        == self.holders@[j]);
                    assert(unique_identities(pushed));
                    assert(all_holder_ids(pushed));
                    assert(lookup(pushed, id.identity()) == Some(balance));
                    assert forall|other: Seq<u8>| other != id.identity() implies lookup(
                        pushed,
                        other,
                    ) == lookup(self.holders@, other) by {
                        assert(pushed.drop_last() =~= self.holders@);
                    }
                    assert(sum_balances(pushed) == sum_balances(self.holders@) + balance);
                }
                self.holders.push(entry);
            },
        }
    }
}

} // verus!
