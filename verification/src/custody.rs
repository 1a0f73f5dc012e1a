//! Vault custody: moves one unit of the collateral asset from the
//! borrower's holding account into the escrow vault's asset account, and
//! reassigns the vault's controlling authority away from the borrower to a
//! protocol-derived capability.

use vstd::prelude::*;

use crate::errors::ErrorCode;
use crate::records::Authority;
use crate::records::TokenAccount;

verus! {

/// Whether one unit can move from `from` to `to` on `authority`'s say-so:
/// the authority controls the source, the asset types agree, the source
/// holds at least the one unit, and the destination can count one more.
pub open spec fn can_transfer_one(from: TokenAccount, to: TokenAccount, authority: Authority) -> bool {
    &&& from.authority == authority
    &&& from.mint == to.mint
    &&& from.amount >= 1
    &&& to.amount < u64::MAX
}

/// Transfers exactly one unit of the collateral asset from `from` to `to`,
/// authorized by `authority`. Fails with `AssetTransferFailed`, moving
/// nothing, when the transfer is not permitted.
pub fn transfer_to_escrow(from: &mut TokenAccount, to: &mut TokenAccount, authority: Authority) -> (r:
    Result<(), ErrorCode>)
    ensures
        can_transfer_one(*old(from), *old(to), authority) ==> {
            &&& r is Ok
            &&& final(from).amount == old(from).amount - 1
            &&& final(to).amount == old(to).amount + 1
        },
        !can_transfer_one(*old(from), *old(to), authority) ==> {
            &&& r == Err::<(), ErrorCode>(ErrorCode::AssetTransferFailed)
            &&& *final(from) == *old(from)
            &&& *final(to) == *old(to)
        },
        final(from).mint == old(from).mint,
        final(from).authority == old(from).authority,
        final(to).mint == old(to).mint,
        final(to).authority == old(to).authority,
{
    if !(from.authority == authority && from.mint == to.mint && from.amount >= 1 && to.amount
        < u64::MAX) {
        return Err(ErrorCode::AssetTransferFailed);
    }
    from.amount = from.amount - 1;
    to.amount = to.amount + 1;
    Ok(())
}

/// Reassigns `account`'s controlling authority from `current` to `next`.
/// Fails with `AuthorityReassignmentFailed`, changing nothing, when
/// `current` does not control the account.
pub fn reassign_authority(account: &mut TokenAccount, current: Authority, next: Authority) -> (r:
    Result<(), ErrorCode>)
    ensures
        old(account).authority == current ==> {
            &&& r is Ok
            &&& final(account).authority == next
        },
        old(account).authority != current ==> {
            &&& r == Err::<(), ErrorCode>(ErrorCode::AuthorityReassignmentFailed)
            &&& *final(account) == *old(account)
        },
        final(account).mint == old(account).mint,
        final(account).amount == old(account).amount,
{
    if !(account.authority == current) {
        return Err(ErrorCode::AuthorityReassignmentFailed);
    }
    account.authority = next;
    Ok(())
}

} // verus!
