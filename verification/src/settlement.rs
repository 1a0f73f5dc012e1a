//! Balance settlement: returns to the borrower the portion of the vault's
//! funding balance that exceeds the minimum the vault must retain to stay
//! valid in storage.

use vstd::prelude::*;

use crate::errors::ErrorCode;

verus! {

/// Transfers `*vault_balance - minimum_persistence_balance` from the vault
/// to the borrower and returns the amount moved; the vault retains exactly
/// `minimum_persistence_balance` afterward. Fails with
/// `InsufficientVaultFunding`, moving nothing, when the vault holds less
/// than the minimum: the subtraction is guarded, never wrapped.
pub fn settle(vault_balance: &mut u64, minimum_persistence_balance: u64, borrower_balance: &mut u64)
    -> (r: Result<u64, ErrorCode>)
    requires
        *old(vault_balance) >= minimum_persistence_balance ==> *old(borrower_balance) + *old(
            vault_balance,
        ) - minimum_persistence_balance <= u64::MAX,
    ensures
        *old(vault_balance) >= minimum_persistence_balance ==> {
            &&& r == Ok::<u64, ErrorCode>(
                (*old(vault_balance) - minimum_persistence_balance) as u64,
            )
            &&& *final(vault_balance) == minimum_persistence_balance
            &&& *final(borrower_balance) == *old(borrower_balance) + *old(vault_balance)
                - minimum_persistence_balance
        },
        *old(vault_balance) < minimum_persistence_balance ==> {
            &&& r == Err::<u64, ErrorCode>(ErrorCode::InsufficientVaultFunding)
            &&& *final(vault_balance) == *old(vault_balance)
            &&& *final(borrower_balance) == *old(borrower_balance)
        },
{
    if *vault_balance < minimum_persistence_balance {
        return Err(ErrorCode::InsufficientVaultFunding);
    }
    let transfer_amount: u64 = *vault_balance - minimum_persistence_balance;
    *vault_balance = *vault_balance - transfer_amount;
    *borrower_balance = *borrower_balance + transfer_amount;
    Ok(transfer_amount)
}

} // verus!
