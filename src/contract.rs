use vstd::prelude::*;
use crate::error::CustomError;
use crate::events::OptionCreated;
use crate::keys::{Authority, Pubkey};
use crate::ledger::{credited, debited, transfer, transfer_error, TokenAccount};

verus! {

/// A bilateral option: the buyer's premium sits in the contract's escrow vault
/// until settlement pays it to the buyer or the seller.
#[derive(Clone, Copy, Debug, PartialEq, Eq, Structural)]
pub struct OptionContract {
    pub buyer: Pubkey,
    pub seller: Pubkey,
    pub strike_price: u64,
    /// Unix seconds from which settlement is permitted.
    pub expiry: i64,
    /// A call when true, a put when false.
    pub is_call: bool,
    pub premium: u64,
    pub exercised: bool,
}

/// The payout rule: a call pays the buyer when the price is above the strike, a
/// put when it is below; every other price, equality included, pays the seller.
pub open spec fn buyer_wins(is_call: bool, strike_price: u64, price: u64) -> bool {
    if is_call {
        price > strike_price
    } else {
        price < strike_price
    }
}

/// The party that the contract pays at `price`.
pub open spec fn winner_of(c: OptionContract, price: u64) -> Pubkey {
    if buyer_wins(c.is_call, c.strike_price, price) {
        c.buyer
    } else {
        c.seller
    }
}

impl OptionContract {
    /// Whether the buyer is paid when the contract settles at `price`.
    pub fn buyer_wins(&self, price: u64) -> (r: bool)
        ensures
            r == buyer_wins(self.is_call, self.strike_price, price),
    {
        if self.is_call {
            price > self.strike_price
        } else {
            price < self.strike_price
        }
    }

    /// The party paid when the contract settles at `price`.
    pub fn winner(&self, price: u64) -> (r: Pubkey)
        ensures
            r == winner_of(*self, price),
    {
        if self.buyer_wins(price) {
            self.buyer
        } else {
            self.seller
        }
    }
}

/// The vault authority of the contract under `key`.
pub open spec fn escrow_authority(key: Pubkey) -> Authority {
    Authority::Escrow(key)
}

/// What creation works on: the contract record under `option_key`, the two
/// parties, the buyer's funding account and the contract's escrow vault.
#[derive(Clone, Copy, Debug, PartialEq, Eq, Structural)]
pub struct InitializeOption {
    pub option_contract: OptionContract,
    pub option_key: Pubkey,
    pub buyer: Pubkey,
    pub seller: Pubkey,
    pub buyer_token_account: TokenAccount,
    pub escrow_account: TokenAccount,
}

/// Why creation is refused; none when it goes through.
pub open spec fn initialize_error(
    ctx: InitializeOption,
    strike_price: u64,
    expiry: i64,
    premium: u64,
    now: i64,
) -> Option<CustomError> {
    if strike_price == 0 || premium == 0 || expiry <= now {
        Some(CustomError::InvalidParameters)
    } else if ctx.escrow_account.authority != escrow_authority(ctx.option_key) {
        Some(CustomError::UnauthorizedAccess)
    } else {
        transfer_error(
            ctx.buyer_token_account,
            ctx.escrow_account,
            premium,
            Authority::Signer(ctx.buyer),
        )
    }
}

/// The accounts after a creation that went through.
pub open spec fn initialized(
    ctx: InitializeOption,
    strike_price: u64,
    expiry: i64,
    is_call: bool,
    premium: u64,
) -> InitializeOption {
    InitializeOption {
        option_contract: OptionContract {
            buyer: ctx.buyer,
            seller: ctx.seller,
            strike_price,
            expiry,
            is_call,
            premium,
            exercised: false,
        },
        buyer_token_account: debited(ctx.buyer_token_account, premium),
        escrow_account: credited(ctx.escrow_account, premium),
        ..ctx
    }
}

/// Creates the contract and moves the premium from the buyer's funding account
/// into the contract's escrow vault, at time `now`.
///
/// Refused with `InvalidParameters` for a zero strike or premium or an expiry
/// not after `now`; with `UnauthorizedAccess` when the vault is not this
/// contract's or the funding account is not the buyer's; with
/// `InsufficientFunds` when the buyer cannot cover the premium. A refusal
/// changes nothing.
pub fn initialize_option(
    ctx: &mut InitializeOption,
    strike_price: u64,
    expiry: i64,
    is_call: bool,
    premium: u64,
    now: i64,
) -> (r: Result<OptionCreated, CustomError>)
    ensures
        match initialize_error(*old(ctx), strike_price, expiry, premium, now) {
            Some(e) => r == Err::<OptionCreated, CustomError>(e) && *final(ctx) == *old(ctx),
            None => r == Ok::<OptionCreated, CustomError>(
                OptionCreated { buyer: old(ctx).buyer, seller: old(ctx).seller, strike_price, expiry },
            ) && *final(ctx) == initialized(*old(ctx), strike_price, expiry, is_call, premium),
        },
{
    if strike_price == 0 || premium == 0 || expiry <= now {
        return Err(CustomError::InvalidParameters);
    }
    if ctx.escrow_account.authority != Authority::Escrow(ctx.option_key) {
        return Err(CustomError::UnauthorizedAccess);
    }
    let buyer = ctx.buyer;
    let seller = ctx.seller;
    transfer(
        &mut ctx.buyer_token_account,
        &mut ctx.escrow_account,
        premium,
        Authority::Signer(buyer),
    )?;
    ctx.option_contract = OptionContract {
        buyer,
        seller,
        strike_price,
        expiry,
        is_call,
        premium,
        exercised: false,
    };
    Ok(OptionCreated { buyer, seller, strike_price, expiry })
}

} // verus!
