use vstd::prelude::*;

use crate::address::{wsol_mint, wsol_mint_id, Address};
use crate::vault_program::errors::ErrorCode;
use crate::vault_program::events::{ArbitrageExecuted, Deposited, Withdrawn};
use crate::vault_program::state::{TokenAccount, UserPosition, Vault};

verus! {

/// What creating the vault reads: its administrator, the router it trusts,
/// and the bump of its derived address.
#[derive(Clone, Copy, Debug)]
pub struct InitializeVault {
    pub authority: Address,
    pub swap_router: Address,
    pub bump: u8,
}

/// What a deposit reads and writes. `vault_token.amount` is the pool balance
/// before this deposit is credited.
#[derive(Clone, Copy, Debug)]
pub struct Deposit {
    pub vault: Vault,
    pub user_position: UserPosition,
    pub user: Address,
    pub user_token: TokenAccount,
    pub vault_token: TokenAccount,
}

/// What an arbitrage reads. `vault_token.amount` is the pool balance before
/// the forwarded swap.
#[derive(Clone, Copy, Debug)]
pub struct ExecuteArbitrage {
    pub vault: Vault,
    pub vault_token: TokenAccount,
    pub executor: Address,
    pub executor_token: TokenAccount,
    pub swap_router_program: Address,
    pub router_state: Address,
    pub jupiter_program: Address,
}

/// What a withdrawal reads and writes. `vault_token.amount` is the pool
/// balance before the payout.
#[derive(Clone, Copy, Debug)]
pub struct Withdraw {
    pub vault: Vault,
    pub user_position: UserPosition,
    pub user: Address,
    pub vault_token: TokenAccount,
    pub user_token: TokenAccount,
    pub owner: Address,
}

/// The first step of an arbitrage, once its preconditions hold: the balance
/// snapshot, the payload to forward, and the seeds the router signs with.
#[derive(Clone, Debug)]
pub struct ArbitragePlan {
    pub initial_balance: u64,
    pub min_profit: u64,
    pub jupiter_instruction_data: Vec<u8>,
    pub vault_seeds: Vec<Vec<u8>>,
}

/// The outcome of a profitable arbitrage: the record to emit and the pool
/// balance left once the executor's fee is paid out.
#[derive(Clone, Copy, Debug, PartialEq, Eq)]
pub struct Settlement {
    pub record: ArbitrageExecuted,
    pub pool_balance_after: u64,
}

/// Shares minted for `amount` paid into a pool that held `pool_balance`
/// before the deposit and had `total_shares` outstanding.
pub open spec fn deposit_outcome(total_shares: u64, owned: u64, pool_balance: u64, amount: u64) -> Result<u64, ErrorCode> {
    let minted: int = if total_shares == 0 {
        amount as int
    } else if amount * total_shares > u64::MAX || pool_balance == 0 {
        -1
    } else {
        amount * total_shares / (pool_balance as int)
    };
    if minted < 0 || owned + minted > u64::MAX || total_shares + minted > u64::MAX {
        Err(ErrorCode::MathOverflow)
    } else {
        Ok(minted as u64)
    }
}

/// Amount paid out for redeeming `shares` out of `total_shares` from a pool
/// holding `pool_balance`, for a holder of `owned` shares. Redeeming no
/// shares at all is refused.
pub open spec fn withdraw_outcome(total_shares: u64, owned: u64, pool_balance: u64, shares: u64) -> Result<u64, ErrorCode> {
    if shares == 0 || owned < shares {
        Err(ErrorCode::InsufficientShares)
    } else if shares == total_shares {
        Ok(pool_balance)
    } else if total_shares == 0 || shares * pool_balance / (total_shares as int) > u64::MAX
        || total_shares < shares {
        Err(ErrorCode::MathOverflow)
    } else {
        Ok((shares * pool_balance / (total_shares as int)) as u64)
    }
}

/// The checks made before an arbitrage touches the pool, in the order made.
pub open spec fn arbitrage_precondition(
    vault_mint: Seq<u8>,
    executor_mint: Seq<u8>,
    initial_balance: u64,
    min_profit: u64,
) -> Result<(), ErrorCode> {
    if vault_mint != wsol_mint_id() || executor_mint != wsol_mint_id() {
        Err(ErrorCode::InvalidTokenMint)
    } else if initial_balance == 0 {
        Err(ErrorCode::InsufficientVaultBalance)
    } else if min_profit == 0 {
        Err(ErrorCode::InvalidMinProfit)
    } else {
        Ok(())
    }
}

/// The executor's share of a profit: a tenth, rounded down.
pub open spec fn executor_fee_of(profit: int) -> int {
    profit * 10 / 100
}

/// Profit and executor fee of a swap that took the pool from
/// `initial_balance` to `final_balance`.
pub open spec fn settlement_outcome(initial_balance: u64, final_balance: u64, min_profit: u64) -> Result<(u64, u64), ErrorCode> {
    if final_balance <= initial_balance || final_balance - initial_balance < min_profit {
        Err(ErrorCode::InsufficientProfit)
    } else if (final_balance - initial_balance) * 10 > u64::MAX {
        Err(ErrorCode::MathOverflow)
    } else {
        Ok(((final_balance - initial_balance) as u64, executor_fee_of(final_balance - initial_balance) as u64))
    }
}

/// The seeds of the vault's derived signing address: `"vault"` and the bump.
pub open spec fn vault_seeds_of(bump: u8) -> Seq<Seq<u8>> {
    seq![seq![118u8, 97u8, 117u8, 108u8, 116u8], seq![bump]]
}

pub open spec fn seeds_view(seeds: Seq<Vec<u8>>) -> Seq<Seq<u8>> {
    seeds.map_values(|s: Vec<u8>| s@)
}

/// A new, empty vault.
pub fn initialize_vault(ctx: &InitializeVault) -> (r: Vault)
    ensures
        r.authority == ctx.authority,
        r.swap_router == ctx.swap_router,
        r.total_shares == 0,
        r.bump == ctx.bump,
{
    Vault { authority: ctx.authority, swap_router: ctx.swap_router, total_shares: 0, bump: ctx.bump }
}

/// Mints shares for `amount` paid into the pool: `amount` itself into an
/// empty vault, else `amount * total_shares / balance` rounded down, where
/// the balance is the one before this deposit. A deposit of zero mints no
/// shares; like any deposit into a vault with shares outstanding and an
/// empty pool, it fails with `MathOverflow` there. Nothing changes on failure.
pub fn deposit(ctx: &mut Deposit, amount: u64) -> (r: Result<Deposited, ErrorCode>)
    ensures
        match deposit_outcome(
            old(ctx).vault.total_shares,
            old(ctx).user_position.shares,
            old(ctx).vault_token.amount,
            amount,
        ) {
            Ok(minted) => {
                &&& r == Ok::<Deposited, ErrorCode>(
                    (Deposited { user: old(ctx).user, amount, shares: minted }),
                )
                &&& final(ctx).vault.total_shares == old(ctx).vault.total_shares + minted
                &&& final(ctx).user_position.shares == old(ctx).user_position.shares + minted
                &&& final(ctx).user_position.owner == old(ctx).user
                &&& final(ctx).vault.authority == old(ctx).vault.authority
                &&& final(ctx).vault.swap_router == old(ctx).vault.swap_router
                &&& final(ctx).vault.bump == old(ctx).vault.bump
                &&& final(ctx).user == old(ctx).user
                &&& final(ctx).user_token == old(ctx).user_token
                &&& final(ctx).vault_token == old(ctx).vault_token
            },
            Err(e) => r == Err::<Deposited, ErrorCode>(e) && *final(ctx) == *old(ctx),
        },
{
    let total = ctx.vault.total_shares;
    let shares: u64 = if total == 0 {
        amount
    } else {
        let vault_balance = ctx.vault_token.amount;
        match amount.checked_mul(total) {
            None => {
                return Err(ErrorCode::MathOverflow);
            },
            Some(product) => {
                if vault_balance == 0 {
                    return Err(ErrorCode::MathOverflow);
                }
                product / vault_balance
            },
        }
    };
    let owned = match ctx.user_position.shares.checked_add(shares) {
        None => {
            return Err(ErrorCode::MathOverflow);
        },
        Some(s) => s,
    };
    let new_total = match total.checked_add(shares) {
        None => {
            return Err(ErrorCode::MathOverflow);
        },
        Some(s) => s,
    };
    ctx.user_position.shares = owned;
    ctx.user_position.owner = ctx.user;
    ctx.vault.total_shares = new_total;
    Ok(Deposited { user: ctx.user, amount, shares })
}

/// Burns `shares` (at least one, at most those the position holds) of the
/// caller's position and computes the payout: the whole
/// pool balance when they are all the shares outstanding, else
/// `shares * balance / total_shares` rounded down (in 128 bits). Nothing
/// changes on failure.
pub fn withdraw(ctx: &mut Withdraw, shares: u64) -> (r: Result<Withdrawn, ErrorCode>)
    ensures
        match withdraw_outcome(
            old(ctx).vault.total_shares,
            old(ctx).user_position.shares,
            old(ctx).vault_token.amount,
            shares,
        ) {
            Ok(amount) => {
                &&& r == Ok::<Withdrawn, ErrorCode>(
                    (Withdrawn { user: old(ctx).user, amount, shares }),
                )
                &&& final(ctx).vault.total_shares == old(ctx).vault.total_shares - shares
                &&& final(ctx).user_position.shares == old(ctx).user_position.shares - shares
                &&& final(ctx).user_position.owner == old(ctx).user_position.owner
                &&& final(ctx).vault.authority == old(ctx).vault.authority
                &&& final(ctx).vault.swap_router == old(ctx).vault.swap_router
                &&& final(ctx).vault.bump == old(ctx).vault.bump
                &&& final(ctx).user == old(ctx).user
                &&& final(ctx).owner == old(ctx).owner
                &&& final(ctx).user_token == old(ctx).user_token
                &&& final(ctx).vault_token == old(ctx).vault_token
            },
            Err(e) => r == Err::<Withdrawn, ErrorCode>(e) && *final(ctx) == *old(ctx),
        },
        shares == 0 || shares > old(ctx).user_position.shares ==> r == Err::<Withdrawn, ErrorCode>(
            ErrorCode::InsufficientShares,
        ) && *final(ctx) == *old(ctx),
{
    if shares == 0 || ctx.user_position.shares < shares {
        return Err(ErrorCode::InsufficientShares);
    }
    let vault_balance = ctx.vault_token.amount;
    let total = ctx.vault.total_shares;
    let amount: u64 = if shares == total {
        vault_balance
    } else {
        if total == 0 {
            return Err(ErrorCode::MathOverflow);
        }
        proof {
            assert(shares * vault_balance <= u64::MAX * u64::MAX) by (nonlinear_arith)
                requires
                    shares <= u64::MAX,
                    vault_balance <= u64::MAX,
            ;
        }
        let numerator: u128 = (shares as u128) * (vault_balance as u128);
        let amount_wide: u128 = numerator / (total as u128);
        if amount_wide > u64::MAX as u128 {
            return Err(ErrorCode::MathOverflow);
        }
        amount_wide as u64
    };
    if total < shares {
        return Err(ErrorCode::MathOverflow);
    }
    ctx.user_position.shares = ctx.user_position.shares - shares;
    ctx.vault.total_shares = total - shares;
    Ok(Withdrawn { user: ctx.user, amount, shares })
}

/// The seeds `["vault", [bump]]` that the vault's derived address signs with.
pub fn vault_signer_seeds(bump: u8) -> (r: Vec<Vec<u8>>)
    ensures
        seeds_view(r@) == vault_seeds_of(bump),
{
    let mut name: Vec<u8> = Vec::new();
    name.push(118u8);
    name.push(97u8);
    name.push(117u8);
    name.push(108u8);
    name.push(116u8);
    let mut b: Vec<u8> = Vec::new();
    b.push(bump);
    let mut seeds: Vec<Vec<u8>> = Vec::new();
    seeds.push(name);
    seeds.push(b);
    assert(seeds_view(seeds@) =~= vault_seeds_of(bump)) by {
        assert(seeds@[0]@ =~= seq![118u8, 97u8, 117u8, 108u8, 116u8]);
        assert(seeds@[1]@ =~= seq![bump]);
    }
    seeds
}

/// Checks an arbitrage's preconditions and snapshots the pool balance: both
/// token accounts must hold wrapped SOL, the pool must be non-empty and the
/// required profit positive. On success the plan carries the payload to
/// forward unchanged and the vault's signer seeds.
pub fn prepare_arbitrage(ctx: &ExecuteArbitrage, jupiter_instruction_data: Vec<u8>, min_profit: u64) -> (r: Result<ArbitragePlan, ErrorCode>)
    ensures
        match arbitrage_precondition(
            ctx.vault_token.mint.bytes@,
            ctx.executor_token.mint.bytes@,
            ctx.vault_token.amount,
            min_profit,
        ) {
            Ok(_) => r matches Ok(plan) && {
                &&& plan.initial_balance == ctx.vault_token.amount
                &&& plan.min_profit == min_profit
                &&& plan.jupiter_instruction_data@ == jupiter_instruction_data@
                &&& seeds_view(plan.vault_seeds@) == vault_seeds_of(ctx.vault.bump)
            },
            Err(e) => r == Err::<ArbitragePlan, ErrorCode>(e),
        },
{
    let wsol = wsol_mint();
    if !ctx.vault_token.mint.equals(&wsol) || !ctx.executor_token.mint.equals(&wsol) {
        return Err(ErrorCode::InvalidTokenMint);
    }
    let initial_balance = ctx.vault_token.amount;
    if initial_balance == 0 {
        return Err(ErrorCode::InsufficientVaultBalance);
    }
    if min_profit == 0 {
        return Err(ErrorCode::InvalidMinProfit);
    }
    let vault_seeds = vault_signer_seeds(ctx.vault.bump);
    Ok(ArbitragePlan { initial_balance, min_profit, jupiter_instruction_data, vault_seeds })
}

/// Settles an arbitrage once the forwarded swap has returned and the pool
/// balance has been read again: the pool must have grown by at least the
/// required profit, of which the executor is paid a tenth, rounded down.
pub fn settle_arbitrage(plan: &ArbitragePlan, final_balance: u64, executor: Address) -> (r: Result<Settlement, ErrorCode>)
    ensures
        match settlement_outcome(plan.initial_balance, final_balance, plan.min_profit) {
            Ok((profit, fee)) => r == Ok::<Settlement, ErrorCode>(
                (Settlement {
                    record: ArbitrageExecuted {
                        executor,
                        profit,
                        executor_fee: fee,
                        vault_profit: (profit - fee) as u64,
                    },
                    pool_balance_after: (final_balance - fee) as u64,
                }),
            ),
            Err(e) => r == Err::<Settlement, ErrorCode>(e),
        },
        final_balance <= plan.initial_balance ==> r == Err::<Settlement, ErrorCode>(
            ErrorCode::InsufficientProfit,
        ),
        r matches Ok(s) ==> s.record.executor_fee + s.record.vault_profit == s.record.profit
            && s.pool_balance_after == final_balance - s.record.executor_fee
            && s.record.profit >= plan.min_profit,
{
    if final_balance <= plan.initial_balance {
        return Err(ErrorCode::InsufficientProfit);
    }
    let profit = final_balance - plan.initial_balance;
    if profit < plan.min_profit {
        return Err(ErrorCode::InsufficientProfit);
    }
    let executor_fee = match profit.checked_mul(10) {
        None => {
            return Err(ErrorCode::MathOverflow);
        },
        Some(p) => p / 100,
    };
    assert(executor_fee <= profit);
    Ok(Settlement {
        record: ArbitrageExecuted {
            executor,
            profit,
            executor_fee,
            vault_profit: profit - executor_fee,
        },
        pool_balance_after: final_balance - executor_fee,
    })
}

} // verus!
