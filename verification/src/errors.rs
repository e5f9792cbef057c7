//! Failure kinds of the token operations.

use vstd::prelude::*;

verus! {

/// Why a token operation was refused.
///
/// Every failure aborts the whole operation: no store is mutated and no
/// event is recorded. Expired allowances are not themselves an error — they
/// read as zero, which then surfaces as [`TokenError::InsufficientAllowance`]
/// when a positive delegated spend is attempted.
#[derive(Clone, Copy, PartialEq, Eq, Structural, Debug)]
pub enum TokenError {
    /// A debit asked for more than the held balance.
    InsufficientBalance,
    /// A delegated spend exceeded the effective (expiration-aware) allowance.
    InsufficientAllowance,
    /// The required address did not authorize the call.
    Unauthorized,
    /// An approval asked for a positive amount with an expiration below the
    /// current ledger number.
    InvalidExpirationLedger,
    /// A credit would push a balance past the representable range.
    Overflow,
}

} // verus!
