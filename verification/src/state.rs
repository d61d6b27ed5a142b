//! The persisted record kinds.

use vstd::prelude::*;

use crate::registry::AccountId;

verus! {

/// The singleton pool record ("bank").
#[derive(Clone, Copy, Debug)]
pub struct Bank {
    /// Identity of the account that performed initialization; immutable after
    /// creation.
    pub owner: AccountId,
    /// Sum of all holder balances currently custodied by the pool, in
    /// smallest units.
    pub total_balance: u64,
}

/// One holder's record. It is keyed by its derived identifier, which already
/// encodes the owning identity, so no identity field is stored inside it.
#[derive(Clone, Copy, Debug)]
pub struct UserAccount {
    /// The holder's balance in smallest units.
    pub balance: u64,
}

} // verus!
