use vstd::prelude::*;
use crate::contract::{escrow_authority, initialize_error, initialized, InitializeOption};
use crate::error::CustomError;
use crate::keys::Authority;
use crate::margin::{deposit_error, deposited, DepositMargin};
use crate::oracle::feed_price;
use crate::settle::{settle_error, settled, SettleOption};

verus! {

/// The accounts after `settle_option` has been called once for each attempt, in
/// order (an attempt is the time of the call and the oracle feed it read),
/// together with how many of the calls succeeded.
pub open spec fn settle_run(ctx: SettleOption, attempts: Seq<(i64, Seq<u8>)>) -> (SettleOption, nat)
    decreases attempts.len(),
{
    if attempts.len() == 0 {
        (ctx, 0)
    } else {
        let (now, data) = attempts[0];
        let rest = attempts.subrange(1, attempts.len() as int);
        if settle_error(ctx, now, data) is Some {
            settle_run(ctx, rest)
        } else {
            let (s, n) = settle_run(settled(ctx, feed_price(data)->Some_0), rest);
            (s, n + 1)
        }
    }
}

/// Settlement is exclusive and the vault pays out at most once: whatever the
/// calls of `settle_option` on one contract, at most one succeeds; the contract
/// ends exercised exactly when it was already, or one call succeeded; a contract
/// already exercised is left untouched; and the vault has released the premium
/// once for each success, so never more than the premium.
pub proof fn lemma_settle_exclusive(ctx: SettleOption, attempts: Seq<(i64, Seq<u8>)>)
    ensures
        ({
            let (s, n) = settle_run(ctx, attempts);
            &&& n <= 1
            &&& s.option_contract.exercised == (ctx.option_contract.exercised || n == 1)
            &&& ctx.option_contract.exercised ==> n == 0 && s == ctx
            &&& s.option_contract.premium == ctx.option_contract.premium
            &&& s.escrow_account.amount + n * ctx.option_contract.premium
                == ctx.escrow_account.amount
            &&& ctx.escrow_account.amount - s.escrow_account.amount
                <= ctx.option_contract.premium
        }),
    decreases attempts.len(),
{
    if attempts.len() > 0 {
        let (now, data) = attempts[0];
        let rest = attempts.subrange(1, attempts.len() as int);
        if settle_error(ctx, now, data) is Some {
            lemma_settle_exclusive(ctx, rest);
        } else {
            let next = settled(ctx, feed_price(data)->Some_0);
            lemma_settle_exclusive(next, rest);
        }
    }
}

/// A settlement attempted before expiry on a contract not yet settled fails
/// with `OptionNotExpired`, and so (by `settle_option`'s contract) moves nothing.
pub proof fn lemma_expiry_gate(ctx: SettleOption, now: i64, data: Seq<u8>)
    requires
        !ctx.option_contract.exercised,
        now < ctx.option_contract.expiry,
    ensures
        settle_error(ctx, now, data) == Some(CustomError::OptionNotExpired),
{
}

/// An oracle feed of fewer than eight bytes makes a settlement that is otherwise
/// due fail with `OracleUnavailable`, which leaves contract and vault as they were.
pub proof fn lemma_malformed_feed(ctx: SettleOption, now: i64, data: Seq<u8>)
    requires
        !ctx.option_contract.exercised,
        now >= ctx.option_contract.expiry,
        data.len() < 8,
    ensures
        settle_error(ctx, now, data) == Some(CustomError::OracleUnavailable),
{
}

/// Creation with valid parameters, into the contract's own empty vault, from a
/// funding account of the buyer that covers the premium, goes through: the
/// funding account is then lower by exactly the premium, the vault holds exactly
/// the premium, and the contract records it as what settlement releases.
pub proof fn lemma_creation_funding(
    ctx: InitializeOption,
    strike_price: u64,
    expiry: i64,
    is_call: bool,
    premium: u64,
    now: i64,
)
    requires
        strike_price > 0,
        premium > 0,
        expiry > now,
        ctx.escrow_account.authority == escrow_authority(ctx.option_key),
        ctx.escrow_account.amount == 0,
        ctx.buyer_token_account.authority == Authority::Signer(ctx.buyer),
        ctx.buyer_token_account.amount >= premium,
    ensures
        initialize_error(ctx, strike_price, expiry, premium, now) is None,
        ({
            let s = initialized(ctx, strike_price, expiry, is_call, premium);
            &&& s.buyer_token_account.amount + premium == ctx.buyer_token_account.amount
            &&& s.escrow_account.amount == premium
            &&& s.option_contract.premium == premium
            &&& !s.option_contract.exercised
        }),
{
}

/// The accounts after `deposit_margin` has been called once for each amount, in
/// order, together with the sum of the amounts that were accepted.
pub open spec fn deposit_run(ctx: DepositMargin, amounts: Seq<u64>) -> (DepositMargin, int)
    decreases amounts.len(),
{
    if amounts.len() == 0 {
        (ctx, 0)
    } else {
        let rest = amounts.subrange(1, amounts.len() as int);
        if deposit_error(ctx, amounts[0]) is Some {
            deposit_run(ctx, rest)
        } else {
            let (s, total) = deposit_run(deposited(ctx, amounts[0]), rest);
            (s, total + amounts[0])
        }
    }
}

/// The sum of `amounts`.
pub open spec fn sum_of(amounts: Seq<u64>) -> int
    decreases amounts.len(),
{
    if amounts.len() == 0 {
        0
    } else {
        amounts[0] + sum_of(amounts.subrange(1, amounts.len() as int))
    }
}

/// Margin only grows: after any sequence of deposits on one account, the balance
/// is what it was plus the sum of the amounts accepted, and never lower than it
/// was; the account stays its owner's.
pub proof fn lemma_margin_monotone(ctx: DepositMargin, amounts: Seq<u64>)
    ensures
        ({
            let (s, total) = deposit_run(ctx, amounts);
            &&& total >= 0
            &&& s.margin_account.amount == ctx.margin_account.amount + total
            &&& s.margin_account.amount >= ctx.margin_account.amount
            &&& s.margin_account.owner == ctx.margin_account.owner
        }),
    decreases amounts.len(),
{
    if amounts.len() > 0 {
        let rest = amounts.subrange(1, amounts.len() as int);
        if deposit_error(ctx, amounts[0]) is Some {
            lemma_margin_monotone(ctx, rest);
        } else {
            lemma_margin_monotone(deposited(ctx, amounts[0]), rest);
        }
    }
}

/// Deposits of non-zero amounts by the account's owner, from a funding account
/// of the owner that covers their sum, are all accepted when the balances can
/// hold it: the margin balance then grows by exactly the sum of the amounts.
pub proof fn lemma_margin_sum(ctx: DepositMargin, amounts: Seq<u64>)
    requires
        forall|i: int| 0 <= i < amounts.len() ==> amounts[i] > 0,
        ctx.margin_account.owner == ctx.user,
        ctx.user_token_account.authority == Authority::Signer(ctx.user),
        ctx.user_token_account.amount >= sum_of(amounts),
        ctx.margin_account.amount + sum_of(amounts) <= u64::MAX,
        ctx.escrow_account.amount + sum_of(amounts) <= u64::MAX,
    ensures
        deposit_run(ctx, amounts).1 == sum_of(amounts),
        deposit_run(ctx, amounts).0.margin_account.amount == ctx.margin_account.amount
            + sum_of(amounts),
    decreases amounts.len(),
{
    lemma_margin_monotone(ctx, amounts);
    if amounts.len() > 0 {
        let rest = amounts.subrange(1, amounts.len() as int);
        lemma_sum_nonneg(rest);
        assert forall|i: int| 0 <= i < rest.len() implies rest[i] > 0 by {
            assert(rest[i] == amounts[i + 1]);
        }
        assert(deposit_error(ctx, amounts[0]) is None);
        lemma_margin_sum(deposited(ctx, amounts[0]), rest);
    }
}

/// A sum of amounts is never negative.
proof fn lemma_sum_nonneg(amounts: Seq<u64>)
    ensures
        sum_of(amounts) >= 0,
    decreases amounts.len(),
{
    if amounts.len() > 0 {
        lemma_sum_nonneg(amounts.subrange(1, amounts.len() as int));
    }
}

} // verus!
