use vstd::prelude::*;
use crate::error::CustomError;
use crate::events::MarginDeposited;
use crate::keys::{Authority, Pubkey};
use crate::ledger::{credited, debited, transfer, transfer_error, TokenAccount};

verus! {

/// A participant's collateral balance, independent of any contract.
#[derive(Clone, Copy, Debug, PartialEq, Eq, Structural)]
pub struct MarginAccount {
    pub owner: Pubkey,
    pub amount: u64,
}

impl MarginAccount {
    /// A fresh margin account of `owner`, holding nothing.
    pub fn new(owner: Pubkey) -> (r: MarginAccount)
        ensures
            r.owner == owner,
            r.amount == 0,
    {
        MarginAccount { owner, amount: 0 }
    }
}

/// What a deposit works on: the user's margin account, the user, the user's
/// funding account and the shared margin custody account.
#[derive(Clone, Copy, Debug, PartialEq, Eq, Structural)]
pub struct DepositMargin {
    pub margin_account: MarginAccount,
    pub user: Pubkey,
    pub user_token_account: TokenAccount,
    pub escrow_account: TokenAccount,
}

/// Why a deposit of `amount` is refused; none when it goes through.
pub open spec fn deposit_error(ctx: DepositMargin, amount: u64) -> Option<CustomError> {
    if amount == 0 {
        Some(CustomError::InvalidAmount)
    } else if ctx.margin_account.owner != ctx.user {
        Some(CustomError::UnauthorizedAccess)
    } else if ctx.margin_account.amount + amount > u64::MAX {
        Some(CustomError::Overflow)
    } else {
        transfer_error(
            ctx.user_token_account,
            ctx.escrow_account,
            amount,
            Authority::Signer(ctx.user),
        )
    }
}

/// The accounts after a deposit of `amount` that went through.
pub open spec fn deposited(ctx: DepositMargin, amount: u64) -> DepositMargin {
    DepositMargin {
        margin_account: MarginAccount {
            amount: (ctx.margin_account.amount + amount) as u64,
            ..ctx.margin_account
        },
        user_token_account: debited(ctx.user_token_account, amount),
        escrow_account: credited(ctx.escrow_account, amount),
        ..ctx
    }
}

/// Moves `amount` from the user's funding account into margin custody, then
/// adds it to the user's margin balance.
///
/// Refused with `InvalidAmount` for a zero amount, `UnauthorizedAccess` when the
/// margin or funding account is not the user's, `Overflow` when the balance
/// could not hold the sum, and `InsufficientFunds` when the user cannot cover
/// the amount. A refusal changes nothing: the balance grows only after the
/// transfer succeeded.
pub fn deposit_margin(ctx: &mut DepositMargin, amount: u64) -> (r: Result<
    MarginDeposited,
    CustomError,
>)
    ensures
        match deposit_error(*old(ctx), amount) {
            Some(e) => r == Err::<MarginDeposited, CustomError>(e) && *final(ctx) == *old(ctx),
            None => r == Ok::<MarginDeposited, CustomError>(
                MarginDeposited { user: old(ctx).user, amount },
            ) && *final(ctx) == deposited(*old(ctx), amount),
        },
{
    if amount == 0 {
        return Err(CustomError::InvalidAmount);
    }
    if ctx.margin_account.owner != ctx.user {
        return Err(CustomError::UnauthorizedAccess);
    }
    if ctx.margin_account.amount > u64::MAX - amount {
        return Err(CustomError::Overflow);
    }
    let user = ctx.user;
    transfer(&mut ctx.user_token_account, &mut ctx.escrow_account, amount, Authority::Signer(user))?;
    ctx.margin_account.amount = ctx.margin_account.amount + amount;
    Ok(MarginDeposited { user, amount })
}

} // verus!
