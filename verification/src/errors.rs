//! The error taxonomy shared by every escrow operation.

use vstd::prelude::*;

verus! {

/// Every way an escrow operation can fail.
///
/// All failures are terminal for the invocation that raised them: nothing
/// is retried, and no partial mutation is left behind.
#[derive(Clone, Copy, PartialEq, Eq, Structural, Debug)]
pub enum EscrowError {
    /// The operation was attempted against a record whose status is not
    /// the one the operation requires, or a persisted status byte was
    /// outside the known range.
    InvalidStatus,
    /// The caller's identity does not match the party the operation
    /// reserves the transition for.
    Unauthorized,
    /// The time gate has not opened yet: the clock reading is still
    /// before the record's expiry.
    EscrowNotReady,
    /// The derived custody address is already occupied, so no record
    /// could be allocated there.
    AllocationFailed,
    /// Fewer bytes than one fixed-width record were supplied to `decode`.
    Truncated,
    /// The external transfer collaborator reported a failure; the record
    /// is left unchanged.
    TransferFailed,
}

} // verus!
