//! A minimal custodial ledger: a single shared pool ("bank") with per-holder
//! sub-balances.
//!
//! The ledger core validates and applies initialize, deposit, withdraw and
//! balance-query operations on two coupled balances: the pool's running total
//! and one holder's balance. All balance arithmetic is overflow-checked, a
//! fixed minimum deposit is enforced, and withdrawals are guarded by a
//! sufficiency check. Records are located through deterministic, collision-free
//! identifiers derived from a fixed tag and the holder's external identity.
//!
//! The host environment that authenticates callers and moves the underlying
//! transferable value between custody accounts is an external collaborator: the
//! ledger exposes `check_deposit` / `check_withdraw` so a host can validate an
//! operation, perform the custody transfer, and only then commit the record
//! updates.

pub mod error;
pub mod laws;
pub mod ledger;
pub mod registry;
pub mod rules;
pub mod state;
pub mod store;
