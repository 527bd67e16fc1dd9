//! The custody ledger adapter: the single choke point through which the
//! vault state machine moves value.
//!
//! The external ledger is modelled by the balances and controllers the core
//! reads: an asset account is a balance with a recorded controller, the
//! claim mint is a supply with a recorded issuing authority, and a claim
//! account is a holder's balance of one vault's claim token. Each of the
//! three operations is all-or-nothing: on any failure both accounts it
//! touches are left exactly as they were.

use vstd::prelude::*;

use crate::errors::ErrorCode;

verus! {

/// An external-ledger account holding a balance of the underlying asset,
/// movable only with the recorded controller as authorizer.
#[derive(Clone, Copy, Debug, PartialEq, Eq, Structural)]
pub struct AssetAccount {
    pub controller: u64,
    pub balance: u64,
}

/// An external-ledger account holding one principal's balance of a vault's
/// claim token; redeemable only by the holder itself.
#[derive(Clone, Copy, Debug, PartialEq, Eq, Structural)]
pub struct ClaimAccount {
    pub holder: u64,
    pub balance: u64,
}

/// The mint of a vault's claim token: the total supply outstanding and the
/// one identity allowed to issue more of it.
#[derive(Clone, Copy, Debug, PartialEq, Eq, Structural)]
pub struct ClaimMint {
    pub authority: u64,
    pub supply: u64,
}

/// When the external asset ledger accepts a movement of `amount` from
/// `from` to `to` on `authorizer`'s signature.
pub open spec fn asset_move_allowed(
    from: AssetAccount,
    to: AssetAccount,
    authorizer: u64,
    amount: u64,
) -> bool {
    &&& authorizer == from.controller
    &&& amount <= from.balance
    &&& to.balance + amount <= u64::MAX
}

/// When the claim mint accepts issuing `amount` new claims to `to` on
/// `authorizer`'s signature.
pub open spec fn claim_issue_allowed(
    to: ClaimAccount,
    mint: ClaimMint,
    authorizer: u64,
    amount: u64,
) -> bool {
    &&& authorizer == mint.authority
    &&& mint.supply + amount <= u64::MAX
    &&& to.balance + amount <= u64::MAX
}

/// When the claim mint accepts redeeming `amount` claims out of `from` on
/// `authorizer`'s signature.
pub open spec fn claim_redeem_allowed(
    from: ClaimAccount,
    mint: ClaimMint,
    authorizer: u64,
    amount: u64,
) -> bool {
    &&& authorizer == from.holder
    &&& amount <= from.balance
    &&& amount <= mint.supply
}

/// Moves `amount` of the underlying asset from `from` to `to`.
///
/// The movement is applied exactly when `authorizer` is the recorded
/// controller of `from`, `from` holds at least `amount`, and `to` can absorb
/// it; otherwise the transfer is rejected and neither account changes.
pub fn move_asset(
    from: &mut AssetAccount,
    to: &mut AssetAccount,
    authorizer: u64,
    amount: u64,
) -> (r: Result<(), ErrorCode>)
    ensures
        asset_move_allowed(*old(from), *old(to), authorizer, amount) ==> {
            &&& r is Ok
            &&& final(from).controller == old(from).controller
            &&& final(from).balance == old(from).balance - amount
            &&& final(to).controller == old(to).controller
            &&& final(to).balance == old(to).balance + amount
        },
        !asset_move_allowed(*old(from), *old(to), authorizer, amount) ==> {
            &&& r == Err::<(), ErrorCode>(ErrorCode::TransferRejected)
            &&& *final(from) == *old(from)
            &&& *final(to) == *old(to)
        },
{
    if authorizer != from.controller {
        return Err(ErrorCode::TransferRejected);
    }
    if amount > from.balance {
        return Err(ErrorCode::TransferRejected);
    }
    if to.balance > u64::MAX - amount {
        return Err(ErrorCode::TransferRejected);
    }
    from.balance = from.balance - amount;
    to.balance = to.balance + amount;
    Ok(())
}

/// Increases the claim balance of `to`, and the supply of `mint`, by
/// `amount`. Issuance is authorized by the mint's recorded authority —
/// for a vault, its derived authority.
pub fn issue_claim(
    to: &mut ClaimAccount,
    mint: &mut ClaimMint,
    authorizer: u64,
    amount: u64,
) -> (r: Result<(), ErrorCode>)
    ensures
        claim_issue_allowed(*old(to), *old(mint), authorizer, amount) ==> {
            &&& r is Ok
            &&& final(to).holder == old(to).holder
            &&& final(to).balance == old(to).balance + amount
            &&& final(mint).authority == old(mint).authority
            &&& final(mint).supply == old(mint).supply + amount
        },
        authorizer != old(mint).authority ==> {
            &&& r == Err::<(), ErrorCode>(ErrorCode::Unauthorized)
            &&& *final(to) == *old(to)
            &&& *final(mint) == *old(mint)
        },
        (authorizer == old(mint).authority && !claim_issue_allowed(
            *old(to),
            *old(mint),
            authorizer,
            amount,
        )) ==> {
            &&& r == Err::<(), ErrorCode>(ErrorCode::ArithmeticOverflow)
            &&& *final(to) == *old(to)
            &&& *final(mint) == *old(mint)
        },
{
    if authorizer != mint.authority {
        return Err(ErrorCode::Unauthorized);
    }
    if mint.supply > u64::MAX - amount {
        return Err(ErrorCode::ArithmeticOverflow);
    }
    if to.balance > u64::MAX - amount {
        return Err(ErrorCode::ArithmeticOverflow);
    }
    to.balance = to.balance + amount;
    mint.supply = mint.supply + amount;
    Ok(())
}

/// Decreases the claim balance of `from`, and the supply of `mint`, by
/// `amount`. Redemption is authorized by the holder directly — the owner
/// must prove ownership of the claims being destroyed, whereas issuance is
/// authorized by the vault.
pub fn redeem_claim(
    from: &mut ClaimAccount,
    mint: &mut ClaimMint,
    authorizer: u64,
    amount: u64,
) -> (r: Result<(), ErrorCode>)
    ensures
        claim_redeem_allowed(*old(from), *old(mint), authorizer, amount) ==> {
            &&& r is Ok
            &&& final(from).holder == old(from).holder
            &&& final(from).balance == old(from).balance - amount
            &&& final(mint).authority == old(mint).authority
            &&& final(mint).supply == old(mint).supply - amount
        },
        authorizer != old(from).holder ==> {
            &&& r == Err::<(), ErrorCode>(ErrorCode::Unauthorized)
            &&& *final(from) == *old(from)
            &&& *final(mint) == *old(mint)
        },
        (authorizer == old(from).holder && !claim_redeem_allowed(
            *old(from),
            *old(mint),
            authorizer,
            amount,
        )) ==> {
            &&& r == Err::<(), ErrorCode>(ErrorCode::InsufficientClaim)
            &&& *final(from) == *old(from)
            &&& *final(mint) == *old(mint)
        },
{
    if authorizer != from.holder {
        return Err(ErrorCode::Unauthorized);
    }
    if amount > from.balance {
        return Err(ErrorCode::InsufficientClaim);
    }
    if amount > mint.supply {
        return Err(ErrorCode::InsufficientClaim);
    }
    from.balance = from.balance - amount;
    mint.supply = mint.supply - amount;
    Ok(())
}

} // verus!
