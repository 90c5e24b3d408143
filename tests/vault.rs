use atomx::address::{wsol_mint, Address};
use atomx::vault_program::errors::ErrorCode;
use atomx::vault_program::events::{Deposited, Withdrawn};
use atomx::vault_program::state::{TokenAccount, UserPosition, Vault};
use atomx::vault_program::vault::{
    deposit, initialize_vault, prepare_arbitrage, settle_arbitrage, vault_signer_seeds, Deposit,
    ExecuteArbitrage, InitializeVault, Withdraw,
};

fn addr(b: u8) -> Address {
    Address::new([b; 32])
}

fn token(mint: Address, amount: u64) -> TokenAccount {
    TokenAccount { mint, owner: addr(9), amount }
}

fn vault_with(total_shares: u64) -> Vault {
    Vault { authority: addr(1), swap_router: addr(2), total_shares, bump: 254 }
}

fn deposit_ctx(total_shares: u64, owned: u64, user: Address, pool: u64) -> Deposit {
    Deposit {
        vault: vault_with(total_shares),
        user_position: UserPosition { owner: user, shares: owned },
        user,
        user_token: token(wsol_mint(), 1_000_000),
        vault_token: token(wsol_mint(), pool),
    }
}

fn withdraw_ctx(total_shares: u64, owned: u64, pool: u64) -> Withdraw {
    Withdraw {
        vault: vault_with(total_shares),
        user_position: UserPosition { owner: addr(5), shares: owned },
        user: addr(5),
        vault_token: token(wsol_mint(), pool),
        user_token: token(wsol_mint(), 0),
        owner: addr(5),
    }
}

fn arbitrage_ctx(pool: u64) -> ExecuteArbitrage {
    ExecuteArbitrage {
        vault: vault_with(1000),
        vault_token: token(wsol_mint(), pool),
        executor: addr(7),
        executor_token: token(wsol_mint(), 0),
        swap_router_program: addr(2),
        router_state: addr(3),
        jupiter_program: addr(4),
    }
}

#[test]
fn initialize_vault_starts_with_no_shares() {
    let v = initialize_vault(&InitializeVault { authority: addr(1), swap_router: addr(2), bump: 253 });
    assert_eq!(v.total_shares, 0);
    assert_eq!(v.bump, 253);
    assert_eq!(v.authority, addr(1));
    assert_eq!(v.swap_router, addr(2));
}

#[test]
fn first_deposit_mints_the_amount() {
    let mut ctx = deposit_ctx(0, 0, addr(5), 0);
    let r = deposit(&mut ctx, 1000);
    assert_eq!(r, Ok(Deposited { user: addr(5), amount: 1000, shares: 1000 }));
    assert_eq!(ctx.vault.total_shares, 1000);
    assert_eq!(ctx.user_position.shares, 1000);
    assert_eq!(ctx.user_position.owner, addr(5));
}

#[test]
fn second_deposit_mints_against_pre_deposit_balance() {
    let mut ctx = deposit_ctx(1000, 0, addr(6), 1000);
    let r = deposit(&mut ctx, 500);
    assert_eq!(r, Ok(Deposited { user: addr(6), amount: 500, shares: 500 }));
    assert_eq!(ctx.vault.total_shares, 1500);
    assert_eq!(ctx.user_position.shares, 500);
}

#[test]
fn deposit_rounds_shares_down() {
    // 100 * 1000 / 1500 = 66.6...
    let mut ctx = deposit_ctx(1000, 0, addr(6), 1500);
    assert_eq!(deposit(&mut ctx, 100).map(|d| d.shares), Ok(66));
}

#[test]
fn deposit_of_zero_mints_nothing() {
    let mut ctx = deposit_ctx(1000, 10, addr(6), 1000);
    assert_eq!(deposit(&mut ctx, 0).map(|d| d.shares), Ok(0));
    assert_eq!(ctx.vault.total_shares, 1000);
    assert_eq!(ctx.user_position.shares, 10);
}

#[test]
fn deposit_product_overflow_fails_and_changes_nothing() {
    let mut ctx = deposit_ctx(u64::MAX / 2, 0, addr(6), 1000);
    let before = ctx;
    assert_eq!(deposit(&mut ctx, 3), Err(ErrorCode::MathOverflow));
    assert_eq!(ctx.vault, before.vault);
    assert_eq!(ctx.user_position, before.user_position);
}

#[test]
fn deposit_into_drained_pool_with_shares_fails() {
    let mut ctx = deposit_ctx(1000, 0, addr(6), 0);
    assert_eq!(deposit(&mut ctx, 10), Err(ErrorCode::MathOverflow));
    assert_eq!(ctx.vault.total_shares, 1000);
}

#[test]
fn deposit_share_total_overflow_fails() {
    let mut ctx = deposit_ctx(u64::MAX, 0, addr(6), u64::MAX);
    assert_eq!(deposit(&mut ctx, 1), Err(ErrorCode::MathOverflow));
    let mut first = deposit_ctx(0, u64::MAX, addr(6), 0);
    assert_eq!(deposit(&mut first, 1), Err(ErrorCode::MathOverflow));
    assert_eq!(first.user_position.shares, u64::MAX);
}

#[test]
fn withdraw_redeems_proportional_amount() {
    let mut ctx = withdraw_ctx(1500, 1000, 1500);
    let r = atomx::vault_program::vault::withdraw(&mut ctx, 500);
    assert_eq!(r, Ok(Withdrawn { user: addr(5), amount: 500, shares: 500 }));
    assert_eq!(ctx.vault.total_shares, 1000);
    assert_eq!(ctx.user_position.shares, 500);
}

#[test]
fn withdraw_rounds_amount_down() {
    // 1 * 1000 / 3 = 333.3...
    let mut ctx = withdraw_ctx(3, 2, 1000);
    assert_eq!(atomx::vault_program::vault::withdraw(&mut ctx, 1).map(|w| w.amount), Ok(333));
}

#[test]
fn withdraw_of_all_shares_drains_pool() {
    let mut ctx = withdraw_ctx(3, 3, 1000);
    assert_eq!(atomx::vault_program::vault::withdraw(&mut ctx, 3).map(|w| w.amount), Ok(1000));
    assert_eq!(ctx.vault.total_shares, 0);
    assert_eq!(ctx.user_position.shares, 0);
}

#[test]
fn withdraw_with_large_values_uses_wide_arithmetic() {
    let mut ctx = withdraw_ctx(u64::MAX, u64::MAX - 1, u64::MAX);
    let r = atomx::vault_program::vault::withdraw(&mut ctx, u64::MAX - 1);
    assert_eq!(r.map(|w| w.amount), Ok(u64::MAX - 1));
}

#[test]
fn withdraw_more_than_owned_fails_and_changes_nothing() {
    let mut ctx = withdraw_ctx(1500, 100, 1500);
    let before = ctx;
    let r = atomx::vault_program::vault::withdraw(&mut ctx, 101);
    assert_eq!(r, Err(ErrorCode::InsufficientShares));
    assert_eq!(ctx.vault, before.vault);
    assert_eq!(ctx.user_position, before.user_position);
    assert_eq!(ctx.vault_token, before.vault_token);
}

#[test]
fn withdraw_beyond_share_total_fails() {
    let mut ctx = withdraw_ctx(5, 10, 1000);
    let r = atomx::vault_program::vault::withdraw(&mut ctx, 7);
    assert_eq!(r, Err(ErrorCode::MathOverflow));
    assert_eq!(ctx.vault.total_shares, 5);
    assert_eq!(ctx.user_position.shares, 10);
}

#[test]
fn withdraw_amount_too_large_fails() {
    // 2 * MAX / 1 does not fit in 64 bits
    let mut ctx = withdraw_ctx(1, 2, u64::MAX);
    let r = atomx::vault_program::vault::withdraw(&mut ctx, 2);
    assert_eq!(r, Err(ErrorCode::MathOverflow));
}

#[test]
fn sole_depositor_round_trip_returns_deposit() {
    let mut d = deposit_ctx(0, 0, addr(5), 0);
    let minted = deposit(&mut d, 1000).unwrap().shares;
    let mut w = withdraw_ctx(d.vault.total_shares, d.user_position.shares, 1000);
    let paid = atomx::vault_program::vault::withdraw(&mut w, minted).unwrap().amount;
    assert_eq!(paid, 1000);
}

#[test]
fn round_trip_in_shared_pool_never_gains() {
    let mut d = deposit_ctx(1000, 0, addr(5), 1001);
    let minted = deposit(&mut d, 333).unwrap().shares;
    assert_eq!(minted, 332);
    let mut w = withdraw_ctx(d.vault.total_shares, d.user_position.shares, 1001 + 333);
    let paid = atomx::vault_program::vault::withdraw(&mut w, minted).unwrap().amount;
    assert!(paid <= 333);
    assert_eq!(paid, 332);
}

#[test]
fn share_total_matches_positions_over_a_sequence() {
    let mut a = deposit_ctx(0, 0, addr(5), 0);
    deposit(&mut a, 1000).unwrap();
    let mut b = deposit_ctx(a.vault.total_shares, 0, addr(6), 1000);
    deposit(&mut b, 500).unwrap();
    let mut w = withdraw_ctx(b.vault.total_shares, a.user_position.shares, 1500);
    atomx::vault_program::vault::withdraw(&mut w, 400).unwrap();
    assert_eq!(w.vault.total_shares, w.user_position.shares + b.user_position.shares);
    assert_eq!(w.vault.total_shares, 1100);
}

#[test]
fn signer_seeds_are_name_and_bump() {
    assert_eq!(vault_signer_seeds(254), vec![b"vault".to_vec(), vec![254u8]]);
}

#[test]
fn prepare_arbitrage_snapshots_balance() {
    let ctx = arbitrage_ctx(1000);
    let plan = prepare_arbitrage(&ctx, vec![1, 2, 3], 50).unwrap();
    assert_eq!(plan.initial_balance, 1000);
    assert_eq!(plan.min_profit, 50);
    assert_eq!(plan.jupiter_instruction_data, vec![1, 2, 3]);
    assert_eq!(plan.vault_seeds, vec![b"vault".to_vec(), vec![254u8]]);
}

#[test]
fn prepare_arbitrage_rejects_wrong_mints() {
    let mut ctx = arbitrage_ctx(1000);
    ctx.vault_token.mint = addr(8);
    assert_eq!(prepare_arbitrage(&ctx, vec![1], 50).err(), Some(ErrorCode::InvalidTokenMint));
    let mut ctx = arbitrage_ctx(1000);
    ctx.executor_token.mint = addr(8);
    assert_eq!(prepare_arbitrage(&ctx, vec![1], 50).err(), Some(ErrorCode::InvalidTokenMint));
}

#[test]
fn prepare_arbitrage_rejects_empty_pool_and_zero_profit() {
    let ctx = arbitrage_ctx(0);
    assert_eq!(prepare_arbitrage(&ctx, vec![1], 50).err(), Some(ErrorCode::InsufficientVaultBalance));
    let ctx = arbitrage_ctx(1000);
    assert_eq!(prepare_arbitrage(&ctx, vec![1], 0).err(), Some(ErrorCode::InvalidMinProfit));
}

#[test]
fn settle_arbitrage_splits_profit() {
    let plan = prepare_arbitrage(&arbitrage_ctx(1000), vec![1], 50).unwrap();
    let s = settle_arbitrage(&plan, 1100, addr(7)).unwrap();
    assert_eq!(s.record.executor, addr(7));
    assert_eq!(s.record.profit, 100);
    assert_eq!(s.record.executor_fee, 10);
    assert_eq!(s.record.vault_profit, 90);
    assert_eq!(s.pool_balance_after, 1090);
}

#[test]
fn settle_arbitrage_rounds_fee_down() {
    let plan = prepare_arbitrage(&arbitrage_ctx(1000), vec![1], 1).unwrap();
    let s = settle_arbitrage(&plan, 1019, addr(7)).unwrap();
    assert_eq!(s.record.executor_fee, 1);
    assert_eq!(s.record.vault_profit, 18);
    assert_eq!(s.pool_balance_after, 1018);
}

#[test]
fn settle_arbitrage_without_gain_fails() {
    let plan = prepare_arbitrage(&arbitrage_ctx(1000), vec![1], 50).unwrap();
    assert_eq!(settle_arbitrage(&plan, 1000, addr(7)), Err(ErrorCode::InsufficientProfit));
    assert_eq!(settle_arbitrage(&plan, 900, addr(7)), Err(ErrorCode::InsufficientProfit));
}

#[test]
fn settle_arbitrage_below_minimum_fails() {
    let plan = prepare_arbitrage(&arbitrage_ctx(1000), vec![1], 50).unwrap();
    assert_eq!(settle_arbitrage(&plan, 1049, addr(7)), Err(ErrorCode::InsufficientProfit));
    assert_eq!(settle_arbitrage(&plan, 1050, addr(7)).map(|s| s.record.profit), Ok(50));
}

#[test]
fn settle_arbitrage_fee_overflow_fails() {
    let plan = prepare_arbitrage(&arbitrage_ctx(1), vec![1], 1).unwrap();
    assert_eq!(settle_arbitrage(&plan, u64::MAX, addr(7)), Err(ErrorCode::MathOverflow));
}

#[test]
fn withdraw_of_zero_shares_fails_and_changes_nothing() {
    let mut ctx = withdraw_ctx(0, 0, 100);
    let before = ctx;
    let r = atomx::vault_program::vault::withdraw(&mut ctx, 0);
    assert_eq!(r, Err(ErrorCode::InsufficientShares));
    assert_eq!(ctx.vault, before.vault);
    assert_eq!(ctx.user_position, before.user_position);
    let mut held = withdraw_ctx(10, 5, 100);
    assert_eq!(atomx::vault_program::vault::withdraw(&mut held, 0), Err(ErrorCode::InsufficientShares));
}
