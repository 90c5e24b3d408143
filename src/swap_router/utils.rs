use vstd::prelude::*;

use crate::address::Address;
use crate::swap_router::errors::ErrorCode;

verus! {

/// Basis points in a whole.
pub const BPS_DENOMINATOR: u64 = 10000;

/// `amount * fee_rate / 10000`, rounded down, or `MathOverflow` when the
/// product does not fit in 64 bits.
pub open spec fn fee_outcome(amount: u64, fee_rate: u16) -> Result<u64, ErrorCode> {
    if amount * fee_rate > u64::MAX {
        Err(ErrorCode::MathOverflow)
    } else {
        Ok((amount * fee_rate / 10000) as u64)
    }
}

/// The fee charged on `amount` at `fee_rate` basis points, rounded down.
pub fn calculate_fee(amount: u64, fee_rate: u16) -> (r: Result<u64, ErrorCode>)
    ensures
        r == fee_outcome(amount, fee_rate),
{
    match amount.checked_mul(fee_rate as u64) {
        None => Err(ErrorCode::MathOverflow),
        Some(product) => Ok(product / BPS_DENOMINATOR),
    }
}

/// What is left of `amount` once the fee is taken; `MathOverflow` when the
/// fee cannot be computed or exceeds the amount.
pub fn calculate_net_amount(amount: u64, fee_rate: u16) -> (r: Result<u64, ErrorCode>)
    ensures
        match fee_outcome(amount, fee_rate) {
            Ok(fee) => if fee <= amount {
                r == Ok::<u64, ErrorCode>((amount - fee) as u64)
            } else {
                r == Err::<u64, ErrorCode>(ErrorCode::MathOverflow)
            },
            Err(e) => r == Err::<u64, ErrorCode>(e),
        },
        fee_rate <= 10000 ==> (r matches Ok(net) ==> net <= amount),
{
    let fee_amount = match calculate_fee(amount, fee_rate) {
        Err(e) => {
            return Err(e);
        },
        Ok(f) => f,
    };
    match amount.checked_sub(fee_amount) {
        None => Err(ErrorCode::MathOverflow),
        Some(net) => Ok(net),
    }
}

/// Accepts `actual_amount` when it is at least `expected_amount` less the
/// tolerance (in basis points, at most 10000), rounded down.
pub fn validate_slippage(expected_amount: u64, actual_amount: u64, slippage_tolerance: u16) -> (r: Result<(), ErrorCode>)
    requires
        slippage_tolerance <= 10000,
    ensures
        expected_amount * (10000 - slippage_tolerance) > u64::MAX ==> r == Err::<(), ErrorCode>(
            ErrorCode::MathOverflow,
        ),
        expected_amount * (10000 - slippage_tolerance) <= u64::MAX ==> {
            let min_amount = expected_amount * (10000 - slippage_tolerance) / 10000;
            &&& actual_amount >= min_amount ==> r == Ok::<(), ErrorCode>(())
            &&& actual_amount < min_amount ==> r == Err::<(), ErrorCode>(ErrorCode::SlippageExceeded)
        },
{
    let kept = BPS_DENOMINATOR - slippage_tolerance as u64;
    let min_amount = match expected_amount.checked_mul(kept) {
        None => {
            return Err(ErrorCode::MathOverflow);
        },
        Some(product) => product / BPS_DENOMINATOR,
    };
    if actual_amount < min_amount {
        return Err(ErrorCode::SlippageExceeded);
    }
    Ok(())
}

/// Price impact in basis points: `amount_in * 10000 / pool_balance_in`,
/// rounded down and capped at 10000 (100%); 0 for an empty pool.
pub fn calculate_price_impact(amount_in: u64, amount_out: u64, pool_balance_in: u64, pool_balance_out: u64) -> (r: Result<u16, ErrorCode>)
    ensures
        pool_balance_in == 0 ==> r == Ok::<u16, ErrorCode>(0),
        pool_balance_in != 0 && amount_in * 10000 > u64::MAX ==> r == Err::<u16, ErrorCode>(
            ErrorCode::MathOverflow,
        ),
        pool_balance_in != 0 && amount_in * 10000 <= u64::MAX ==> {
            let impact = amount_in * 10000 / (pool_balance_in as int);
            r == Ok::<u16, ErrorCode>((if impact < 10000 { impact } else { 10000 }) as u16)
        },
{
    if pool_balance_in == 0 {
        return Ok(0);
    }
    let impact = match amount_in.checked_mul(BPS_DENOMINATOR) {
        None => {
            return Err(ErrorCode::MathOverflow);
        },
        Some(product) => product / pool_balance_in,
    };
    if impact < BPS_DENOMINATOR {
        Ok(impact as u16)
    } else {
        Ok(10000)
    }
}

/// Accepts a program id only when it is the expected one.
pub fn validate_dex_program(program_id: &Address, expected_program: &Address) -> (r: Result<(), ErrorCode>)
    ensures
        program_id.bytes@ == expected_program.bytes@ ==> r == Ok::<(), ErrorCode>(()),
        program_id.bytes@ != expected_program.bytes@ ==> r == Err::<(), ErrorCode>(
            ErrorCode::InvalidDexProgram,
        ),
{
    if program_id.equals(expected_program) {
        Ok(())
    } else {
        Err(ErrorCode::InvalidDexProgram)
    }
}

} // verus!
