use derivatives_program::contract::{initialize_option, InitializeOption, OptionContract};
use derivatives_program::error::CustomError;
use derivatives_program::events::{Event, EventLog, MarginDeposited, OptionCreated};
use derivatives_program::keys::{Authority, Pubkey};
use derivatives_program::ledger::{transfer, TokenAccount};
use derivatives_program::margin::{deposit_margin, DepositMargin, MarginAccount};
use derivatives_program::registry::Registry;

fn key(n: u128) -> Pubkey {
    Pubkey::new(n, n)
}

fn blank() -> OptionContract {
    OptionContract {
        buyer: key(0),
        seller: key(0),
        strike_price: 0,
        expiry: 0,
        is_call: false,
        premium: 0,
        exercised: false,
    }
}

fn init_ctx(funds: u64) -> InitializeOption {
    InitializeOption {
        option_contract: blank(),
        option_key: key(5),
        buyer: key(1),
        seller: key(2),
        buyer_token_account: TokenAccount::new(Authority::Signer(key(1)), funds),
        escrow_account: TokenAccount::new(Authority::Escrow(key(5)), 0),
    }
}

fn margin_ctx(funds: u64) -> DepositMargin {
    DepositMargin {
        margin_account: MarginAccount::new(key(3)),
        user: key(3),
        user_token_account: TokenAccount::new(Authority::Signer(key(3)), funds),
        escrow_account: TokenAccount::new(Authority::Signer(key(4)), 0),
    }
}

#[test]
fn test_initialize_option() {
    let mut ctx = init_ctx(1_000_000);
    let r = initialize_option(&mut ctx, 1000, 1_650_000_000, true, 100, 1_600_000_000);
    assert_eq!(
        r,
        Ok(OptionCreated { buyer: key(1), seller: key(2), strike_price: 1000, expiry: 1_650_000_000 }),
        "Option contract not initialized"
    );
    let c = ctx.option_contract;
    assert_eq!((c.buyer, c.seller), (key(1), key(2)));
    assert_eq!((c.strike_price, c.expiry, c.is_call, c.premium), (1000, 1_650_000_000, true, 100));
    assert!(!c.exercised);
    assert_eq!(ctx.buyer_token_account.amount, 1_000_000 - 100);
    assert_eq!(ctx.escrow_account.amount, 100);
}

#[test]
fn creation_rejects_bad_parameters() {
    for (strike, expiry, premium) in [(0u64, 200i64, 10u64), (1000, 200, 0), (1000, 100, 10), (1000, 99, 10)] {
        let mut ctx = init_ctx(1_000);
        let before = ctx;
        let r = initialize_option(&mut ctx, strike, expiry, false, premium, 100);
        assert_eq!(r, Err(CustomError::InvalidParameters));
        assert_eq!(ctx, before);
    }
}

#[test]
fn creation_needs_funds() {
    let mut ctx = init_ctx(99);
    let before = ctx;
    let r = initialize_option(&mut ctx, 1000, 200, true, 100, 100);
    assert_eq!(r, Err(CustomError::InsufficientFunds));
    assert_eq!(ctx, before);
    let mut ctx = init_ctx(100);
    assert!(initialize_option(&mut ctx, 1000, 200, true, 100, 100).is_ok());
    assert_eq!(ctx.buyer_token_account.amount, 0);
    assert_eq!(ctx.escrow_account.amount, 100);
}

#[test]
fn creation_needs_own_vault_and_buyer_funds() {
    let mut ctx = init_ctx(1_000);
    ctx.escrow_account.authority = Authority::Escrow(key(6));
    let r = initialize_option(&mut ctx, 1000, 200, true, 100, 100);
    assert_eq!(r, Err(CustomError::UnauthorizedAccess));
    let mut ctx = init_ctx(1_000);
    ctx.buyer_token_account.authority = Authority::Signer(key(2));
    let before = ctx;
    let r = initialize_option(&mut ctx, 1000, 200, true, 100, 100);
    assert_eq!(r, Err(CustomError::UnauthorizedAccess));
    assert_eq!(ctx, before);
}

#[test]
fn test_deposit_margin() {
    let mut ctx = margin_ctx(1_000_000);
    let r = deposit_margin(&mut ctx, 500);
    assert_eq!(r, Ok(MarginDeposited { user: key(3), amount: 500 }), "Margin account not created");
    assert_eq!(ctx.margin_account.amount, 500);
    assert_eq!(ctx.user_token_account.amount, 1_000_000 - 500);
    assert_eq!(ctx.escrow_account.amount, 500);
}

#[test]
fn margin_is_the_sum_of_deposits() {
    let mut ctx = margin_ctx(1_000);
    let mut last = 0;
    for a in [10u64, 0, 250, 2_000, 40] {
        let _ = deposit_margin(&mut ctx, a);
        assert!(ctx.margin_account.amount >= last);
        last = ctx.margin_account.amount;
    }
    assert_eq!(ctx.margin_account.amount, 10 + 250 + 40);
    assert_eq!(ctx.user_token_account.amount, 1_000 - 300);
}

#[test]
fn deposit_errors() {
    let mut ctx = margin_ctx(100);
    let before = ctx;
    assert_eq!(deposit_margin(&mut ctx, 0), Err(CustomError::InvalidAmount));
    assert_eq!(deposit_margin(&mut ctx, 101), Err(CustomError::InsufficientFunds));
    assert_eq!(ctx, before);
    ctx.margin_account.owner = key(8);
    assert_eq!(deposit_margin(&mut ctx, 1), Err(CustomError::UnauthorizedAccess));
    let mut ctx = margin_ctx(100);
    ctx.margin_account.amount = u64::MAX;
    assert_eq!(deposit_margin(&mut ctx, 1), Err(CustomError::Overflow));
    assert_eq!(ctx.user_token_account.amount, 100);
}

#[test]
fn transfer_needs_the_owner() {
    let mut a = TokenAccount::new(Authority::Signer(key(1)), 50);
    let mut b = TokenAccount::new(Authority::Signer(key(2)), 5);
    assert_eq!(transfer(&mut a, &mut b, 20, Authority::Signer(key(2))), Err(CustomError::UnauthorizedAccess));
    assert_eq!(transfer(&mut a, &mut b, 20, Authority::Signer(key(1))), Ok(()));
    assert_eq!((a.amount, b.amount), (30, 25));
}

#[test]
fn registry_lookup() {
    let mut reg = Registry::new();
    assert_eq!(reg.get(0), Err(CustomError::NotFound));
    let mut c = blank();
    c.premium = 7;
    let id = reg.insert(c);
    assert_eq!(id, 0);
    assert_eq!(reg.get(id), Ok(c));
    assert_eq!(reg.get(1), Err(CustomError::NotFound));
    c.exercised = true;
    assert_eq!(reg.update(id, c), Ok(()));
    assert_eq!(reg.get(id).unwrap().exercised, true);
    assert_eq!(reg.update(3, c), Err(CustomError::NotFound));
    assert_eq!(reg.len(), 1);
}

#[test]
fn event_log_appends() {
    let mut log = EventLog::new();
    let e = Event::Deposited(MarginDeposited { user: key(1), amount: 3 });
    log.append(e);
    log.append(Event::Deposited(MarginDeposited { user: key(2), amount: 4 }));
    assert_eq!(log.len(), 2);
    assert_eq!(log.entries[0], e);
}
