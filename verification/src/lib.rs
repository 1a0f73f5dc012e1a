//! Loan origination for an NFT-collateralized lending protocol.
//!
//! A borrower accepts a lender's standing [`records::Offer`] against a
//! [`records::CollectionPool`]: collateral custody moves into an escrow
//! vault, the vault's funding balance is settled back down to its
//! persistence minimum, and a new [`records::ActiveLoan`] record is created
//! atomically with the offer being marked consumed.

pub mod custody;
pub mod errors;
pub mod keys;
pub mod originate;
pub mod records;
pub mod settlement;
