use vstd::prelude::*;
use crate::contract::{escrow_authority, winner_of, OptionContract};
use crate::error::CustomError;
use crate::events::OptionSettled;
use crate::keys::{Authority, Pubkey};
use crate::ledger::{credited, debited, transfer, transfer_error, TokenAccount};
use crate::oracle::{feed_price, read_price};

verus! {

/// What settlement works on: the contract under `option_key`, its escrow vault
/// and the two parties' receiving accounts.
#[derive(Clone, Copy, Debug, PartialEq, Eq, Structural)]
pub struct SettleOption {
    pub option_contract: OptionContract,
    pub option_key: Pubkey,
    pub escrow_account: TokenAccount,
    pub buyer_token_account: TokenAccount,
    pub seller_token_account: TokenAccount,
}

/// The account that receives the premium at `price`.
pub open spec fn recipient(ctx: SettleOption, price: u64) -> TokenAccount {
    if crate::contract::buyer_wins(
        ctx.option_contract.is_call,
        ctx.option_contract.strike_price,
        price,
    ) {
        ctx.buyer_token_account
    } else {
        ctx.seller_token_account
    }
}

/// Why the release of the premium to the winner at `price` is refused; none
/// when it goes through. The vault must be the contract's own and the receiving
/// account the winner's.
pub open spec fn release_error(ctx: SettleOption, price: u64) -> Option<CustomError> {
    if ctx.escrow_account.authority != escrow_authority(ctx.option_key) {
        Some(CustomError::UnauthorizedAccess)
    } else if recipient(ctx, price).authority != Authority::Signer(
        winner_of(ctx.option_contract, price),
    ) {
        Some(CustomError::UnauthorizedAccess)
    } else {
        transfer_error(
            ctx.escrow_account,
            recipient(ctx, price),
            ctx.option_contract.premium,
            escrow_authority(ctx.option_key),
        )
    }
}

/// Why settlement at time `now` with the oracle feed `data` is refused; none when
/// it goes through. Every precondition is checked before any fund moves.
pub open spec fn settle_error(ctx: SettleOption, now: i64, data: Seq<u8>) -> Option<CustomError> {
    if ctx.option_contract.exercised {
        Some(CustomError::AlreadySettled)
    } else if now < ctx.option_contract.expiry {
        Some(CustomError::OptionNotExpired)
    } else if feed_price(data) is None {
        Some(CustomError::OracleUnavailable)
    } else {
        release_error(ctx, feed_price(data)->Some_0)
    }
}

/// The accounts after a settlement at `price` that went through: the premium has
/// moved from the vault to the winner and the contract is exercised.
pub open spec fn settled(ctx: SettleOption, price: u64) -> SettleOption {
    let premium = ctx.option_contract.premium;
    let c = OptionContract { exercised: true, ..ctx.option_contract };
    if crate::contract::buyer_wins(
        ctx.option_contract.is_call,
        ctx.option_contract.strike_price,
        price,
    ) {
        SettleOption {
            option_contract: c,
            escrow_account: debited(ctx.escrow_account, premium),
            buyer_token_account: credited(ctx.buyer_token_account, premium),
            ..ctx
        }
    } else {
        SettleOption {
            option_contract: c,
            escrow_account: debited(ctx.escrow_account, premium),
            seller_token_account: credited(ctx.seller_token_account, premium),
            ..ctx
        }
    }
}

/// Settles the contract at time `now`, reading the price from the oracle feed
/// `data`, and pays the whole premium from the vault to the winner.
///
/// Refused, in this order, with `AlreadySettled` when the contract is exercised,
/// `OptionNotExpired` before expiry, `OracleUnavailable` when the feed holds fewer
/// than eight bytes, and `UnauthorizedAccess`, `InsufficientFunds` or `Overflow`
/// when the release cannot be made. A refusal changes nothing.
pub fn settle_option(ctx: &mut SettleOption, now: i64, data: &[u8]) -> (r: Result<
    OptionSettled,
    CustomError,
>)
    ensures
        match settle_error(*old(ctx), now, data@) {
            Some(e) => r == Err::<OptionSettled, CustomError>(e) && *final(ctx) == *old(ctx),
            None => {
                let price = feed_price(data@)->Some_0;
                &&& r == Ok::<OptionSettled, CustomError>(
                    OptionSettled {
                        option_contract: old(ctx).option_key,
                        winner: winner_of(old(ctx).option_contract, price),
                        price,
                    },
                )
                &&& *final(ctx) == settled(*old(ctx), price)
            },
        },
{
    if ctx.option_contract.exercised {
        return Err(CustomError::AlreadySettled);
    }
    if now < ctx.option_contract.expiry {
        return Err(CustomError::OptionNotExpired);
    }
    let price = match read_price(data) {
        Some(p) => p,
        None => return Err(CustomError::OracleUnavailable),
    };
    let vault = Authority::Escrow(ctx.option_key);
    if ctx.escrow_account.authority != vault {
        return Err(CustomError::UnauthorizedAccess);
    }
    let winner = ctx.option_contract.winner(price);
    let premium = ctx.option_contract.premium;
    if ctx.option_contract.buyer_wins(price) {
        if ctx.buyer_token_account.authority != Authority::Signer(winner) {
            return Err(CustomError::UnauthorizedAccess);
        }
        transfer(&mut ctx.escrow_account, &mut ctx.buyer_token_account, premium, vault)?;
    } else {
        if ctx.seller_token_account.authority != Authority::Signer(winner) {
            return Err(CustomError::UnauthorizedAccess);
        }
        transfer(&mut ctx.escrow_account, &mut ctx.seller_token_account, premium, vault)?;
    }
    ctx.option_contract.exercised = true;
    Ok(OptionSettled { option_contract: ctx.option_key, winner, price })
}

} // verus!
