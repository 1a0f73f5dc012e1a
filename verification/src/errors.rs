//! The ways a loan origination can fail.

use vstd::prelude::*;

verus! {

/// Outcome kinds for a failed origination, specific enough for a caller to
/// tell "offer unavailable" from "funding problem" from "asset-movement
/// problem".
#[derive(Clone, Copy, Debug, PartialEq, Eq, Structural)]
pub enum ErrorCode {
    /// The offer has already been consumed by an earlier origination.
    LoanAlreadyTaken,
    /// The vault's funding balance is below the minimum it must retain to
    /// stay valid in storage, so settlement would underflow.
    InsufficientVaultFunding,
    /// The collateral unit could not be moved into the escrow vault.
    AssetTransferFailed,
    /// The vault's controlling authority could not be reassigned.
    AuthorityReassignmentFailed,
}

} // verus!
