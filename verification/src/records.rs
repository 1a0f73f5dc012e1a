//! The persistent records touched by origination, and the accounts that hold
//! the collateral asset and the vault's funding balance.
//!
//! Identities (lenders, borrowers, asset mints, record storage keys) are
//! 64-bit keys; balances and asset amounts are 64-bit quantities; times and
//! durations are signed 64-bit timestamps.

use vstd::prelude::*;

verus! {

/// The party permitted to move assets out of an account.
///
/// Vault custody is a capability handoff: an account is controlled either by
/// an ordinary identity, or by a protocol-only capability computable only
/// from the owning loan record's storage key. The two are distinct by
/// construction, so an account under `Escrow` authority is never under any
/// holder's unilateral control.
#[derive(Clone, Copy, Debug, PartialEq, Eq, Structural)]
pub enum Authority {
    /// Held directly by an ordinary identity, such as the borrower.
    Holder(u64),
    /// Held by the protocol, as the capability derived from a loan's key.
    Escrow(u64),
}

/// Configuration shared by all offers against one collateral collection.
/// Read-only during origination.
#[derive(Clone, Copy, Debug, PartialEq, Eq, Structural)]
pub struct CollectionPool {
    /// Storage key of this pool record; offers reference it by this key.
    pub key: u64,
    /// Loan term length, added to the origination time to produce the
    /// repayment deadline.
    pub duration: i64,
}

/// A lender's standing commitment to extend one loan against a collection.
///
/// `is_loan_taken` moves from `false` to `true` exactly once, atomically
/// with creation of the corresponding loan record; `borrower` is written at
/// that same moment. Once taken, the offer can never again be the basis of
/// a new loan.
#[derive(Clone, Copy, Debug, PartialEq, Eq, Structural)]
pub struct Offer {
    /// Storage key of this offer record.
    pub key: u64,
    /// Identity of the lender who stands behind the offer.
    pub lender: u64,
    /// Storage key of the `CollectionPool` the offer lends against.
    pub collection: u64,
    /// Identity of the borrower, meaningful only once the offer is taken.
    pub borrower: u64,
    /// Whether the offer has been consumed by an origination.
    pub is_loan_taken: bool,
}

/// The record of one realized loan, created at origination in its active
/// state. The transitions to repaid or liquidated are performed elsewhere
/// and are mutually exclusive terminal states.
#[derive(Clone, Copy, Debug, PartialEq, Eq, Structural)]
pub struct ActiveLoan {
    /// Storage key of the `CollectionPool` the loan was made against.
    pub collection: u64,
    /// Back-reference to the offer this loan originated from.
    pub offer_account: u64,
    /// Identity of the lender.
    pub lender: u64,
    /// Identity of the borrower.
    pub borrower: u64,
    /// Identity of the collateral asset type.
    pub mint: u64,
    /// Origination time.
    pub loan_ts: i64,
    /// Repayment deadline: origination time plus the pool's duration.
    pub repay_ts: i64,
    /// Whether the loan has been repaid; `false` at creation.
    pub is_repaid: bool,
    /// Whether the loan has been liquidated; `false` at creation.
    pub is_liquidated: bool,
    /// Derivation nonce: the storage key of this record, derived
    /// deterministically from the offer's identity.
    pub nonce: u64,
}

/// A holding account for units of one collateral asset type.
#[derive(Clone, Copy, Debug, PartialEq, Eq, Structural)]
pub struct TokenAccount {
    /// Identity of the asset type the account holds.
    pub mint: u64,
    /// How many units of the asset the account holds.
    pub amount: u64,
    /// The party permitted to move assets out of the account.
    pub authority: Authority,
}

} // verus!
