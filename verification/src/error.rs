//! The failure taxonomy of the ledger operations.

use vstd::prelude::*;

verus! {

/// Everything a ledger operation can fail with.
///
/// `DepositTooSmall` and `InsufficientFunds` are caller-correctable validation
/// failures. `ArithmeticOverflow` means a balance update would leave the
/// unsigned 64-bit range and is never silently wrapped or saturated.
/// `TransferFailed` is propagated by a host when the external custody-transfer
/// capability fails; the ledger records are left untouched in that case.
/// `RecordNotFound` and `AlreadyInitialized` are store-level conditions
/// surfaced as-is.
#[derive(Clone, Copy, Debug, PartialEq, Eq, Structural)]
pub enum BankError {
    /// A deposit below the fixed minimum.
    DepositTooSmall,
    /// A withdrawal of more than the holder's balance.
    InsufficientFunds,
    /// A balance update would exceed the unsigned 64-bit range.
    ArithmeticOverflow,
    /// The external custody-transfer capability reported failure.
    TransferFailed,
    /// No record exists under the derived identifier.
    RecordNotFound,
    /// The pool record has already been created.
    AlreadyInitialized,
}

} // verus!
