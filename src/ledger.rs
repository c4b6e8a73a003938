use vstd::prelude::*;
use crate::error::CustomError;
use crate::keys::Authority;

verus! {

/// A fund-holding account of the token ledger, as the engine sees it.
#[derive(Clone, Copy, Debug, PartialEq, Eq, Structural)]
pub struct TokenAccount {
    pub authority: Authority,
    pub amount: u64,
}

impl TokenAccount {
    pub fn new(authority: Authority, amount: u64) -> (r: TokenAccount)
        ensures
            r.authority == authority,
            r.amount == amount,
    {
        TokenAccount { authority, amount }
    }
}

/// Why a transfer of `amount` from `from` to `to`, authorised by `auth`, is
/// refused; none when it goes through.
pub open spec fn transfer_error(
    from: TokenAccount,
    to: TokenAccount,
    amount: u64,
    auth: Authority,
) -> Option<CustomError> {
    if from.authority != auth {
        Some(CustomError::UnauthorizedAccess)
    } else if from.amount < amount {
        Some(CustomError::InsufficientFunds)
    } else if to.amount + amount > u64::MAX {
        Some(CustomError::Overflow)
    } else {
        None
    }
}

/// `a` with `amount` taken away.
pub open spec fn debited(a: TokenAccount, amount: u64) -> TokenAccount {
    TokenAccount { amount: (a.amount - amount) as u64, ..a }
}

/// `a` with `amount` added.
pub open spec fn credited(a: TokenAccount, amount: u64) -> TokenAccount {
    TokenAccount { amount: (a.amount + amount) as u64, ..a }
}

/// Moves `amount` from `from` to `to` when `auth` owns `from`, `from` can cover
/// it and `to` can hold it. On failure both accounts are left as they were.
pub fn transfer(
    from: &mut TokenAccount,
    to: &mut TokenAccount,
    amount: u64,
    auth: Authority,
) -> (r: Result<(), CustomError>)
    ensures
        match transfer_error(*old(from), *old(to), amount, auth) {
            Some(e) => r == Err::<(), CustomError>(e) && *final(from) == *old(from)
                && *final(to) == *old(to),
            None => r is Ok && *final(from) == debited(*old(from), amount)
                && *final(to) == credited(*old(to), amount),
        },
{
    if from.authority != auth {
        return Err(CustomError::UnauthorizedAccess);
    }
    if from.amount < amount {
        return Err(CustomError::InsufficientFunds);
    }
    if to.amount > u64::MAX - amount {
        return Err(CustomError::Overflow);
    }
    from.amount = from.amount - amount;
    to.amount = to.amount + amount;
    Ok(())
}

} // verus!
