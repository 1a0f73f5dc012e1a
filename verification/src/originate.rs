//! The loan-origination state machine: validates the offer's availability,
//! creates the active-loan record, and marks the offer consumed, then runs
//! vault custody and balance settlement — all-or-nothing.

use vstd::prelude::*;

use crate::custody::reassign_authority;
use crate::custody::transfer_to_escrow;
use crate::errors::ErrorCode;
use crate::keys::derive_record_key;
use crate::keys::lemma_derive_record_key_injective;
use crate::keys::spec_derive_record_key;
use crate::keys::ACTIVE_LOAN_TAG;
use crate::keys::VAULT_AUTHORITY_TAG;
use crate::records::ActiveLoan;
use crate::records::Authority;
use crate::records::CollectionPool;
use crate::records::Offer;
use crate::records::TokenAccount;
use crate::settlement::settle;

verus! {

/// The loan record a successful origination creates: field for field what
/// the offer, the pool, the borrower, the collateral mint and the clock
/// dictate, with its storage key derived from the offer's identity.
pub open spec fn spec_new_loan(
    offer: Offer,
    pool: CollectionPool,
    borrower: u64,
    mint: u64,
    now: i64,
) -> ActiveLoan {
    ActiveLoan {
        collection: pool.key,
        offer_account: offer.key,
        lender: offer.lender,
        borrower,
        mint,
        loan_ts: now,
        repay_ts: (now + pool.duration) as i64,
        is_repaid: false,
        is_liquidated: false,
        nonce: spec_derive_record_key(ACTIVE_LOAN_TAG, offer.key),
    }
}

/// The offer as a successful origination leaves it: consumed by `borrower`,
/// every other field untouched.
pub open spec fn spec_taken_offer(offer: Offer, borrower: u64) -> Offer {
    Offer { borrower, is_loan_taken: true, ..offer }
}

/// The protocol-only capability that controls a loan's escrow vault,
/// derived deterministically from the loan record's own key. Only the
/// repay and liquidate paths, holding the matching derivation, can present
/// it.
pub open spec fn spec_escrow_authority(loan: ActiveLoan) -> Authority {
    Authority::Escrow(spec_derive_record_key(VAULT_AUTHORITY_TAG, loan.nonce))
}

/// Computes the escrow capability of `loan`: the authority a vault must be
/// under for the protocol's repay and liquidate paths to act on it.
pub fn escrow_authority_of(loan: &ActiveLoan) -> (a: Authority)
    ensures
        a == spec_escrow_authority(*loan),
{
    Authority::Escrow(derive_record_key(VAULT_AUTHORITY_TAG, loan.nonce))
}

/// Consumes `offer` and creates the loan record. On an open offer, sets
/// `offer.borrower` and marks the offer taken, atomically with returning
/// the new loan; on an already-taken offer, fails with `LoanAlreadyTaken`
/// and mutates nothing, however often it is retried.
pub fn originate(offer: &mut Offer, pool: &CollectionPool, borrower: u64, mint: u64, now: i64) -> (r:
    Result<ActiveLoan, ErrorCode>)
    requires
        old(offer).collection == pool.key,
        i64::MIN <= now + pool.duration <= i64::MAX,
    ensures
        old(offer).is_loan_taken ==> {
            &&& r == Err::<ActiveLoan, ErrorCode>(ErrorCode::LoanAlreadyTaken)
            &&& *final(offer) == *old(offer)
        },
        !old(offer).is_loan_taken ==> {
            &&& r == Ok::<ActiveLoan, ErrorCode>(spec_new_loan(*old(offer), *pool, borrower, mint, now))
            &&& *final(offer) == spec_taken_offer(*old(offer), borrower)
        },
{
    if offer.is_loan_taken {
        return Err(ErrorCode::LoanAlreadyTaken);
    }
    let loan_ts: i64 = now;
    let repay_ts: i64 = now + pool.duration;
    let loan = ActiveLoan {
        collection: pool.key,
        offer_account: offer.key,
        lender: offer.lender,
        borrower,
        mint,
        loan_ts,
        repay_ts,
        is_repaid: false,
        is_liquidated: false,
        nonce: derive_record_key(ACTIVE_LOAN_TAG, offer.key),
    };
    offer.borrower = borrower;
    offer.is_loan_taken = true;
    Ok(loan)
}

/// Every record and account one borrow request touches: the offer being
/// consumed, the pool it lends against, the borrower's and the vault's
/// asset accounts, the vault's funding balance and the borrower's balance,
/// the identities involved, and the clock reading.
#[derive(Clone, Copy, Debug, PartialEq, Eq, Structural)]
pub struct Borrow {
    /// The offer the borrower accepts; consumed on success.
    pub offer_loan: Offer,
    /// The pool configuration the offer lends against; read-only here.
    pub collection_pool: CollectionPool,
    /// The escrow vault's asset account, freshly created for this loan.
    pub vault_asset_account: TokenAccount,
    /// The borrower's holding account for the collateral asset.
    pub borrower_asset_account: TokenAccount,
    /// The vault account's funding balance.
    pub vault_balance: u64,
    /// The borrower's funding balance.
    pub borrower_balance: u64,
    /// Identity of the borrower accepting the offer.
    pub borrower: u64,
    /// Identity of the collateral asset type.
    pub asset_mint: u64,
    /// The current time, as read from the clock.
    pub unix_timestamp: i64,
}

impl Borrow {
    /// What the resolver of the borrow request has already validated: the
    /// offer references the given pool, the borrower's account holds the
    /// collateral unit of the given mint under the borrower's authority,
    /// and the vault's asset account was created empty for that mint with
    /// the borrower as its initial authority.
    pub open spec fn wf(&self) -> bool {
        &&& self.offer_loan.collection == self.collection_pool.key
        &&& self.borrower_asset_account.authority == Authority::Holder(self.borrower)
        &&& self.borrower_asset_account.mint == self.asset_mint
        &&& self.borrower_asset_account.amount >= 1
        &&& self.vault_asset_account.authority == Authority::Holder(self.borrower)
        &&& self.vault_asset_account.mint == self.asset_mint
        &&& self.vault_asset_account.amount == 0
    }
}

/// Whether a borrow request is accepted: the offer is still open and the
/// vault's funding balance covers the minimum it must retain. Checked in
/// this order, so an already-taken offer is reported as such even when the
/// funding is short too.
pub open spec fn spec_accepts(pre: Borrow, minimum_persistence_balance: u64) -> bool {
    &&& !pre.offer_loan.is_loan_taken
    &&& pre.vault_balance >= minimum_persistence_balance
}

/// The accounts as a successful origination leaves them: the offer
/// consumed by the borrower, one collateral unit moved from the borrower's
/// account into the vault, the vault's authority handed to the loan's
/// escrow capability, the vault's balance settled down to the minimum and
/// the excess returned to the borrower. Pool, identities and clock are
/// untouched.
pub open spec fn spec_originated(pre: Borrow, minimum_persistence_balance: u64) -> Borrow {
    let loan = spec_new_loan(
        pre.offer_loan,
        pre.collection_pool,
        pre.borrower,
        pre.asset_mint,
        pre.unix_timestamp,
    );
    Borrow {
        offer_loan: spec_taken_offer(pre.offer_loan, pre.borrower),
        vault_asset_account: TokenAccount {
            mint: pre.vault_asset_account.mint,
            amount: (pre.vault_asset_account.amount + 1) as u64,
            authority: spec_escrow_authority(loan),
        },
        borrower_asset_account: TokenAccount {
            mint: pre.borrower_asset_account.mint,
            amount: (pre.borrower_asset_account.amount - 1) as u64,
            authority: pre.borrower_asset_account.authority,
        },
        vault_balance: minimum_persistence_balance,
        borrower_balance: (pre.borrower_balance + pre.vault_balance
            - minimum_persistence_balance) as u64,
        ..pre
    }
}

/// The outcome a borrow request is owed: the new loan when the request is
/// accepted, and otherwise the error naming the first check that failed.
pub open spec fn spec_outcome(pre: Borrow, minimum_persistence_balance: u64) -> Result<
    ActiveLoan,
    ErrorCode,
> {
    if pre.offer_loan.is_loan_taken {
        Err(ErrorCode::LoanAlreadyTaken)
    } else if pre.vault_balance < minimum_persistence_balance {
        Err(ErrorCode::InsufficientVaultFunding)
    } else {
        Ok(
            spec_new_loan(
                pre.offer_loan,
                pre.collection_pool,
                pre.borrower,
                pre.asset_mint,
                pre.unix_timestamp,
            ),
        )
    }
}

/// The accounts after a borrow request: changed as `spec_originated` says
/// when the request is accepted, and exactly as they were when it is
/// rejected — rejection is free of side effects.
pub open spec fn spec_post(pre: Borrow, minimum_persistence_balance: u64) -> Borrow {
    if spec_accepts(pre, minimum_persistence_balance) {
        spec_originated(pre, minimum_persistence_balance)
    } else {
        pre
    }
}

/// Handles one borrow request against `accounts`, atomically: validates the
/// offer's availability, consumes the offer and creates the loan record,
/// moves the collateral unit into escrow, hands the vault's authority to
/// the loan's escrow capability, and settles the vault's funding balance
/// down to `minimum_balance_for_rent_exemption`. Either every effect is
/// applied and the new loan is returned, or no account changes and the
/// error says why.
pub fn handler(accounts: &mut Borrow, minimum_balance_for_rent_exemption: u64) -> (r: Result<
    ActiveLoan,
    ErrorCode,
>)
    requires
        old(accounts).wf(),
        i64::MIN <= old(accounts).unix_timestamp + old(accounts).collection_pool.duration
            <= i64::MAX,
        old(accounts).vault_balance >= minimum_balance_for_rent_exemption ==> old(
            accounts,
        ).borrower_balance + old(accounts).vault_balance - minimum_balance_for_rent_exemption
            <= u64::MAX,
    ensures
        r == spec_outcome(*old(accounts), minimum_balance_for_rent_exemption),
        *final(accounts) == spec_post(*old(accounts), minimum_balance_for_rent_exemption),
        r is Ok <==> spec_accepts(*old(accounts), minimum_balance_for_rent_exemption),
{
    if accounts.offer_loan.is_loan_taken {
        return Err(ErrorCode::LoanAlreadyTaken);
    }
    if accounts.vault_balance < minimum_balance_for_rent_exemption {
        return Err(ErrorCode::InsufficientVaultFunding);
    }

    // Consume the offer and create the loan record.
    let mut offer = accounts.offer_loan;
    let loan = match originate(
        &mut offer,
        &accounts.collection_pool,
        accounts.borrower,
        accounts.asset_mint,
        accounts.unix_timestamp,
    ) {
        Ok(loan) => loan,
        Err(e) => { return Err(e) },
    };
    accounts.offer_loan = offer;

    // Move the collateral unit into escrow, then hand the vault's
    // authority to the loan's capability — never the other way round, so
    // the vault is not locked before it holds the collateral.
    let borrower_authority = Authority::Holder(accounts.borrower);
    let mut from = accounts.borrower_asset_account;
    let mut vault = accounts.vault_asset_account;
    match transfer_to_escrow(&mut from, &mut vault, borrower_authority) {
        Ok(()) => {},
        Err(e) => { return Err(e) },
    }
    match reassign_authority(&mut vault, borrower_authority, escrow_authority_of(&loan)) {
        Ok(()) => {},
        Err(e) => { return Err(e) },
    }
    accounts.borrower_asset_account = from;
    accounts.vault_asset_account = vault;

    // Settle the vault's funding balance down to the persistence minimum.
    let mut vault_balance = accounts.vault_balance;
    let mut borrower_balance = accounts.borrower_balance;
    match settle(&mut vault_balance, minimum_balance_for_rent_exemption, &mut borrower_balance) {
        Ok(_transferred) => {},
        Err(e) => { return Err(e) },
    }
    accounts.vault_balance = vault_balance;
    accounts.borrower_balance = borrower_balance;

    Ok(loan)
}

/// At most one loan is ever created from one offer. Once a borrow request
/// against an offer has been accepted, the offer is consumed, and any later
/// request referencing it — from any borrower, with any other accounts,
/// under any persistence minimum — is rejected as `LoanAlreadyTaken` and
/// changes nothing. Of two serialized attempts on the same open offer,
/// exactly the first succeeds.
pub proof fn lemma_at_most_one_loan_per_offer(
    pre: Borrow,
    minimum_first: u64,
    second: Borrow,
    minimum_second: u64,
)
    requires
        spec_outcome(pre, minimum_first) is Ok,
        second.offer_loan == spec_post(pre, minimum_first).offer_loan,
    ensures
        spec_outcome(second, minimum_second) == Err::<ActiveLoan, ErrorCode>(
            ErrorCode::LoanAlreadyTaken,
        ),
        spec_post(second, minimum_second) == second,
{
}

/// Loans originated from distinct offers are filed under distinct storage
/// keys, whatever pool, borrower, mint or time each origination saw: the
/// offer-to-loan relationship is one-to-one down to the records' addresses.
pub proof fn lemma_loans_of_distinct_offers_are_distinct(
    offer1: Offer,
    pool1: CollectionPool,
    borrower1: u64,
    mint1: u64,
    now1: i64,
    offer2: Offer,
    pool2: CollectionPool,
    borrower2: u64,
    mint2: u64,
    now2: i64,
)
    requires
        offer1.key != offer2.key,
    ensures
        spec_new_loan(offer1, pool1, borrower1, mint1, now1).nonce != spec_new_loan(
            offer2,
            pool2,
            borrower2,
            mint2,
            now2,
        ).nonce,
{
    if spec_derive_record_key(ACTIVE_LOAN_TAG, offer1.key) == spec_derive_record_key(
        ACTIVE_LOAN_TAG,
        offer2.key,
    ) {
        lemma_derive_record_key_injective(ACTIVE_LOAN_TAG, offer1.key, offer2.key);
    }
}

/// Rejection of an already-taken offer is idempotent: the request fails
/// with `LoanAlreadyTaken`, the accounts stay exactly as they were, and so
/// every repetition of the request, whatever the call count, returns the
/// same rejection against the same accounts.
pub proof fn lemma_rejection_idempotent(pre: Borrow, minimum_persistence_balance: u64)
    requires
        pre.offer_loan.is_loan_taken,
    ensures
        spec_outcome(pre, minimum_persistence_balance) == Err::<ActiveLoan, ErrorCode>(
            ErrorCode::LoanAlreadyTaken,
        ),
        spec_post(pre, minimum_persistence_balance) == pre,
        spec_outcome(
            spec_post(pre, minimum_persistence_balance),
            minimum_persistence_balance,
        ) == spec_outcome(pre, minimum_persistence_balance),
{
}

/// Every created loan's repayment deadline is its origination time plus the
/// pool's duration, whenever that sum is representable.
pub proof fn lemma_repay_deadline(
    offer: Offer,
    pool: CollectionPool,
    borrower: u64,
    mint: u64,
    now: i64,
)
    requires
        i64::MIN <= now + pool.duration <= i64::MAX,
    ensures
        ({
            let loan = spec_new_loan(offer, pool, borrower, mint, now);
            loan.repay_ts == loan.loan_ts + pool.duration
        }),
{
}

/// Successful origination moves exactly one collateral unit: the
/// borrower's holding for the mint decreases by one, and the vault — empty
/// when the request arrived — holds exactly one.
pub proof fn lemma_collateral_in_vault(pre: Borrow, minimum_persistence_balance: u64)
    requires
        pre.wf(),
    ensures
        spec_originated(pre, minimum_persistence_balance).borrower_asset_account.amount
            == pre.borrower_asset_account.amount - 1,
        spec_originated(pre, minimum_persistence_balance).vault_asset_account.amount == 1,
{
}

/// After successful origination the vault's controlling authority is no
/// longer the borrower — nor any other holder: it is the escrow capability
/// derived from the loan's own key, so no unilateral party can reclaim the
/// collateral outside the protocol's repay and liquidate paths.
pub proof fn lemma_vault_authority_not_borrower(
    pre: Borrow,
    minimum_persistence_balance: u64,
    holder: u64,
)
    ensures
        spec_originated(pre, minimum_persistence_balance).vault_asset_account.authority
            != Authority::Holder(holder),
        spec_originated(pre, minimum_persistence_balance).vault_asset_account.authority
            is Escrow,
{
}

} // verus!
