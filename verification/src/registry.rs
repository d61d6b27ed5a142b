//! Derivation of record identifiers.
//!
//! Every persisted record is located by a deterministic identifier derived
//! from a fixed tag and, for holder records, the holder's external identity.
//! The derived key of a record id is the tag followed by the identity bytes;
//! distinct inputs always give distinct keys, which
//! [`lemma_derived_key_injective`] proves.

use vstd::prelude::*;

verus! {

/// An external identity: the 32-byte key under which the host environment
/// authenticates a caller.
#[derive(Clone, Copy, Debug)]
pub struct AccountId {
    pub bytes: [u8; 32],
}

impl View for AccountId {
    type V = Seq<u8>;

    open spec fn view(&self) -> Seq<u8> {
        self.bytes@
    }
}

impl AccountId {
    /// Wraps 32 identity bytes.
    pub fn new(bytes: [u8; 32]) -> (r: AccountId)
        ensures
            r@ == bytes@,
    {
        AccountId { bytes }
    }

    /// Byte-for-byte identity comparison.
    pub fn same(&self, other: &AccountId) -> (r: bool)
        ensures
            r <==> self@ == other@,
    {
        let mut i: usize = 0;
        while i < 32
            invariant
                0 <= i <= 32,
                forall|j: int| 0 <= j < i ==> self.bytes@[j] == other.bytes@[j],
            decreases 32 - i,
        {
            if self.bytes[i] != other.bytes[i] {
                assert(self@[i as int] != other@[i as int]);
                return false;
            }
            i = i + 1;
        }
        proof {
            assert(self.bytes@ =~= other.bytes@);
        }
        true
    }
}

/// The tag from which the singleton pool record's identifier is derived
/// (the bytes of "bank").
pub open spec fn pool_tag() -> Seq<u8> {
    seq![98u8, 97u8, 110u8, 107u8]
}

/// The tag from which a holder record's identifier is derived
/// (the bytes of "user").
pub open spec fn holder_tag() -> Seq<u8> {
    seq![117u8, 115u8, 101u8, 114u8]
}

/// A derived record identifier: where a record stands in the store.
#[derive(Clone, Copy, Debug)]
pub enum RecordId {
    /// The singleton pool record, derived from the fixed pool tag alone.
    Pool,
    /// The record of one holder, derived from the holder tag and that
    /// holder's external identity.
    Holder(AccountId),
}

impl RecordId {
    /// The identity a holder id was derived from; meaningful only for
    /// holder ids.
    pub open spec fn identity(self) -> Seq<u8> {
        match self {
            RecordId::Pool => Seq::empty(),
            RecordId::Holder(a) => a@,
        }
    }

    /// The derived key: the tag followed by the discriminating identity bytes.
    pub open spec fn derived_key(self) -> Seq<u8> {
        match self {
            RecordId::Pool => pool_tag(),
            RecordId::Holder(a) => holder_tag() + a@,
        }
    }

    /// Whether two ids name the same record.
    pub open spec fn same_record(self, other: RecordId) -> bool {
        match (self, other) {
            (RecordId::Pool, RecordId::Pool) => true,
            (RecordId::Holder(a), RecordId::Holder(b)) => a@ == b@,
            _ => false,
        }
    }

    /// Compares two derived identifiers.
    pub fn same(&self, other: &RecordId) -> (r: bool)
        ensures
            r <==> self.derived_key() == other.derived_key(),
            r <==> self.same_record(*other),
    {
        proof {
            lemma_derived_key_injective(*self, *other);
        }
        match (self, other) {
            (RecordId::Pool, RecordId::Pool) => true,
            (RecordId::Holder(a), RecordId::Holder(b)) => a.same(b),
            _ => false,
        }
    }
}

/// Derives the pool record's identifier: a pure function of the fixed pool
/// tag, so one value process-wide.
pub fn derive_pool_id() -> (r: RecordId)
    ensures
        r == RecordId::Pool,
        r.derived_key() == pool_tag(),
{
    RecordId::Pool
}

/// Derives a holder record's identifier from the holder's external identity:
/// deterministic, and distinct identities give distinct identifiers.
pub fn derive_holder_id(identity: &AccountId) -> (r: RecordId)
    ensures
        r == RecordId::Holder(*identity),
        r.identity() == identity@,
        r.derived_key() == holder_tag() + identity@,
{
    RecordId::Holder(*identity)
}

/// Derived identifiers are collision-free: two record ids have equal derived
/// keys exactly when they name the same record. In particular the pool id
/// never collides with a holder id, and distinct identities never collide.
pub proof fn lemma_derived_key_injective(a: RecordId, b: RecordId)
    ensures
        a.derived_key() == b.derived_key() <==> a.same_record(b),
{
    match (a, b) {
        (RecordId::Pool, RecordId::Pool) => {
        }
        (RecordId::Holder(x), RecordId::Holder(y)) => {
            if x@ == y@ {
                assert(a.derived_key() =~= b.derived_key());
            }
            if a.derived_key() == b.derived_key() {
                assert forall|i: int| 0 <= i < 32 implies x@[i] == y@[i] by {
                    assert(a.derived_key()[i + 4] == x@[i]);
                    assert(b.derived_key()[i + 4] == y@[i]);
                }
                assert(x@ =~= y@);
            }
        }
        (RecordId::Pool, RecordId::Holder(y)) => {
            assert(a.derived_key().len() == 4);
            assert(b.derived_key().len() == 36);
        }
        (RecordId::Holder(x), RecordId::Pool) => {
            assert(a.derived_key().len() == 36);
            assert(b.derived_key().len() == 4);
        }
    }
}

} // verus!
