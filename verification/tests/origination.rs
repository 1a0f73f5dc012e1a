use nft_lend_borrow::errors::ErrorCode;
use nft_lend_borrow::keys::derive_record_key;
use nft_lend_borrow::keys::ACTIVE_LOAN_TAG;
use nft_lend_borrow::keys::VAULT_AUTHORITY_TAG;
use nft_lend_borrow::originate::escrow_authority_of;
use nft_lend_borrow::originate::handler;
use nft_lend_borrow::originate::originate;
use nft_lend_borrow::originate::Borrow;
use nft_lend_borrow::records::Authority;
use nft_lend_borrow::records::CollectionPool;
use nft_lend_borrow::records::Offer;
use nft_lend_borrow::records::TokenAccount;

const LENDER: u64 = 0xaa;
const BORROWER: u64 = 0xbb;
const MINT: u64 = 0xcc;
const OFFER_KEY: u64 = 0x0f;
const POOL_KEY: u64 = 0x03;
const NOW: i64 = 1_700_000_000;

fn open_accounts(vault_balance: u64) -> Borrow {
    Borrow {
        offer_loan: Offer {
            key: OFFER_KEY,
            lender: LENDER,
            collection: POOL_KEY,
            borrower: 0,
            is_loan_taken: false,
        },
        collection_pool: CollectionPool { key: POOL_KEY, duration: 86_400 },
        vault_asset_account: TokenAccount {
            mint: MINT,
            amount: 0,
            authority: Authority::Holder(BORROWER),
        },
        borrower_asset_account: TokenAccount {
            mint: MINT,
            amount: 1,
            authority: Authority::Holder(BORROWER),
        },
        vault_balance,
        borrower_balance: 500,
        borrower: BORROWER,
        asset_mint: MINT,
        unix_timestamp: NOW,
    }
}

#[test]
fn originate_consumes_open_offer() {
    let mut offer = Offer {
        key: OFFER_KEY,
        lender: LENDER,
        collection: POOL_KEY,
        borrower: 0,
        is_loan_taken: false,
    };
    let pool = CollectionPool { key: POOL_KEY, duration: 86_400 };
    let loan = originate(&mut offer, &pool, BORROWER, MINT, NOW).unwrap();
    assert_eq!(loan.collection, POOL_KEY);
    assert_eq!(loan.offer_account, OFFER_KEY);
    assert_eq!(loan.lender, LENDER);
    assert_eq!(loan.borrower, BORROWER);
    assert_eq!(loan.mint, MINT);
    assert_eq!(loan.loan_ts, NOW);
    assert_eq!(loan.repay_ts, NOW + 86_400);
    assert!(!loan.is_repaid);
    assert!(!loan.is_liquidated);
    assert_eq!(loan.nonce, derive_record_key(ACTIVE_LOAN_TAG, OFFER_KEY));
    assert!(offer.is_loan_taken);
    assert_eq!(offer.borrower, BORROWER);
    assert_eq!(offer.lender, LENDER);
    assert_eq!(offer.key, OFFER_KEY);
    assert_eq!(offer.collection, POOL_KEY);
}

#[test]
fn originate_rejects_taken_offer() {
    let taken = Offer {
        key: OFFER_KEY,
        lender: LENDER,
        collection: POOL_KEY,
        borrower: BORROWER,
        is_loan_taken: true,
    };
    let pool = CollectionPool { key: POOL_KEY, duration: 86_400 };
    let mut offer = taken;
    let r = originate(&mut offer, &pool, 0xdd, MINT, NOW);
    assert_eq!(r, Err(ErrorCode::LoanAlreadyTaken));
    assert_eq!(offer, taken);
}

#[test]
fn repay_deadline_is_loan_ts_plus_duration() {
    let mut accounts = open_accounts(2_000_000);
    accounts.collection_pool.duration = 604_800;
    let loan = handler(&mut accounts, 1_000_000).unwrap();
    assert_eq!(loan.repay_ts, loan.loan_ts + 604_800);
}

#[test]
fn collateral_moves_into_vault() {
    let mut accounts = open_accounts(2_000_000);
    let before = accounts.borrower_asset_account.amount;
    handler(&mut accounts, 1_000_000).unwrap();
    assert_eq!(accounts.borrower_asset_account.amount, before - 1);
    assert_eq!(accounts.vault_asset_account.amount, 1);
}

#[test]
fn vault_authority_leaves_the_borrower() {
    let mut accounts = open_accounts(2_000_000);
    let loan = handler(&mut accounts, 1_000_000).unwrap();
    let authority = accounts.vault_asset_account.authority;
    assert_ne!(authority, Authority::Holder(BORROWER));
    assert_eq!(authority, escrow_authority_of(&loan));
    assert_eq!(
        authority,
        Authority::Escrow(derive_record_key(VAULT_AUTHORITY_TAG, loan.nonce))
    );
}

#[test]
fn second_attempt_on_same_offer_is_rejected() {
    let mut accounts = open_accounts(2_000_000);
    let first = handler(&mut accounts, 1_000_000);
    assert!(first.is_ok());

    // A rival request referencing the now-consumed offer, with fresh
    // accounts of its own, is rejected without any effect.
    let mut rival = open_accounts(3_000_000);
    rival.offer_loan = accounts.offer_loan;
    rival.borrower = 0xdd;
    rival.borrower_asset_account.authority = Authority::Holder(0xdd);
    rival.vault_asset_account.authority = Authority::Holder(0xdd);
    let before = rival;
    let second = handler(&mut rival, 1_000_000);
    assert_eq!(second, Err(ErrorCode::LoanAlreadyTaken));
    assert_eq!(rival, before);
}

#[test]
fn rejection_is_idempotent() {
    let mut accounts = open_accounts(2_000_000);
    handler(&mut accounts, 1_000_000).unwrap();
    let settled = accounts;
    for _ in 0..3 {
        let r = handler(&mut accounts, 1_000_000);
        assert_eq!(r, Err(ErrorCode::LoanAlreadyTaken));
        assert_eq!(accounts, settled);
    }
}

#[test]
fn underfunded_vault_rejected_without_mutation() {
    let mut accounts = open_accounts(900_000);
    let before = accounts;
    let r = handler(&mut accounts, 1_000_000);
    assert_eq!(r, Err(ErrorCode::InsufficientVaultFunding));
    assert_eq!(accounts, before);
    assert!(!accounts.offer_loan.is_loan_taken);
}

#[test]
fn end_to_end_origination() {
    let mut accounts = open_accounts(2_039_280);
    let borrower_funds_before = accounts.borrower_balance;
    let loan = handler(&mut accounts, 2_039_280).unwrap();

    assert_eq!(loan.lender, LENDER);
    assert_eq!(loan.borrower, BORROWER);
    assert_eq!(loan.mint, MINT);
    assert_eq!(loan.repay_ts, NOW + 86_400);
    assert!(!loan.is_repaid);
    assert!(!loan.is_liquidated);

    assert!(accounts.offer_loan.is_loan_taken);
    assert_eq!(accounts.offer_loan.borrower, BORROWER);

    // The vault started exactly at the minimum, so the borrower receives
    // no extra funds.
    assert_eq!(accounts.borrower_balance, borrower_funds_before);
    assert_eq!(accounts.vault_balance, 2_039_280);
}
