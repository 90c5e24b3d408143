use vstd::prelude::*;

use vstd::arithmetic::div_mod::{
    lemma_div_by_multiple, lemma_div_is_ordered, lemma_fundamental_div_mod, lemma_mod_pos_bound,
};

use crate::vault_program::vault::{deposit_outcome, withdraw_outcome};

verus! {

/// The shares held over a list of positions.
pub open spec fn sum_shares(positions: Seq<u64>) -> int
    decreases positions.len(),
{
    if positions.len() == 0 {
        0
    } else {
        sum_shares(positions.drop_last()) + positions.last()
    }
}

proof fn lemma_sum_update(positions: Seq<u64>, i: int, v: u64)
    requires
        0 <= i < positions.len(),
    ensures
        sum_shares(positions.update(i, v)) == sum_shares(positions) - positions[i] + v,
    decreases positions.len(),
{
    let updated = positions.update(i, v);
    if i == positions.len() - 1 {
        assert(updated.drop_last() =~= positions.drop_last());
    } else {
        assert(updated.drop_last() =~= positions.drop_last().update(i, v));
        lemma_sum_update(positions.drop_last(), i, v);
    }
}

/// A position never holds more shares than the list of positions it belongs
/// to holds in all.
pub proof fn position_within_total(positions: Seq<u64>, i: int)
    requires
        0 <= i < positions.len(),
    ensures
        positions[i] <= sum_shares(positions),
    decreases positions.len(),
{
    if i < positions.len() - 1 {
        position_within_total(positions.drop_last(), i);
    }
    lemma_sum_nonneg(positions.drop_last());
}

proof fn lemma_sum_nonneg(positions: Seq<u64>)
    ensures
        sum_shares(positions) >= 0,
    decreases positions.len(),
{
    if positions.len() > 0 {
        lemma_sum_nonneg(positions.drop_last());
    }
}

/// A deposit credited to one position keeps the vault's share total equal to
/// the sum of all positions.
pub proof fn deposit_conserves_shares(total_shares: u64, positions: Seq<u64>, i: int, pool_balance: u64, amount: u64)
    requires
        total_shares == sum_shares(positions),
        0 <= i < positions.len(),
    ensures
        deposit_outcome(total_shares, positions[i], pool_balance, amount) matches Ok(minted)
            ==> total_shares + minted == sum_shares(
            positions.update(i, (positions[i] + minted) as u64),
        ),
{
    if let Ok(minted) = deposit_outcome(total_shares, positions[i], pool_balance, amount) {
        lemma_sum_update(positions, i, (positions[i] + minted) as u64);
    }
}

/// A withdrawal debited to one position keeps the vault's share total equal
/// to the sum of all positions.
pub proof fn withdraw_conserves_shares(total_shares: u64, positions: Seq<u64>, i: int, pool_balance: u64, shares: u64)
    requires
        total_shares == sum_shares(positions),
        0 <= i < positions.len(),
    ensures
        withdraw_outcome(total_shares, positions[i], pool_balance, shares) is Ok
            ==> total_shares - shares == sum_shares(
            positions.update(i, (positions[i] - shares) as u64),
        ),
{
    if withdraw_outcome(total_shares, positions[i], pool_balance, shares) is Ok {
        lemma_sum_update(positions, i, (positions[i] - shares) as u64);
    }
}

/// Depositing and then at once redeeming the shares just minted pays back
/// at most the amount deposited, whoever else holds shares, provided a vault
/// with no shares outstanding holds no balance. (A deposit that mints no
/// shares leaves nothing to redeem.) In particular the sole depositor of an
/// empty vault gets back exactly what they put in.
pub proof fn deposit_then_withdraw_never_gains(total_shares: u64, owned: u64, pool_balance: u64, amount: u64)
    requires
        owned <= total_shares,
        total_shares == 0 ==> pool_balance == 0,
        pool_balance + amount <= u64::MAX,
    ensures
        deposit_outcome(total_shares, owned, pool_balance, amount) matches Ok(minted) ==> minted > 0 ==> {
            &&& withdraw_outcome(
                (total_shares + minted) as u64,
                (owned + minted) as u64,
                (pool_balance + amount) as u64,
                minted,
            ) matches Ok(paid)
            &&& paid <= amount
            &&& total_shares == 0 ==> paid == amount
        },
{
    if let Ok(minted) = deposit_outcome(total_shares, owned, pool_balance, amount) {
        let s = total_shares as int;
        let b = pool_balance as int;
        let a = amount as int;
        let m = minted as int;
        if total_shares != 0 && minted > 0 {
            assert(b > 0);
            assert(m == (a * s) / b);
            lemma_fundamental_div_mod(a * s, b);
            lemma_mod_pos_bound(a * s, b);
            assert(m * b <= a * s) by (nonlinear_arith)
                requires
                    a * s == b * m + (a * s) % b,
                    (a * s) % b >= 0,
            ;
            assert(m * (b + a) <= a * (s + m)) by (nonlinear_arith)
                requires
                    m * b <= a * s,
            ;
            assert(s + m > 0);
            lemma_div_is_ordered(m * (b + a), a * (s + m), s + m);
            lemma_div_by_multiple(a, s + m);
            assert(m * (b + a) / (s + m) <= a);
            assert(m != s + m);
        }
    }
}

} // verus!
