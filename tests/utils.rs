use atomx::address::Address;
use atomx::swap_router::errors::ErrorCode;
use atomx::swap_router::utils::{
    calculate_fee, calculate_net_amount, calculate_price_impact, validate_dex_program, validate_slippage,
};

#[test]
fn fee_is_rounded_down_basis_points() {
    assert_eq!(calculate_fee(10_000, 30), Ok(30));
    assert_eq!(calculate_fee(999, 30), Ok(2));
    assert_eq!(calculate_fee(0, 1000), Ok(0));
}

#[test]
fn fee_overflow_fails() {
    assert_eq!(calculate_fee(u64::MAX, 2), Err(ErrorCode::MathOverflow));
}

#[test]
fn net_amount_subtracts_fee() {
    assert_eq!(calculate_net_amount(10_000, 30), Ok(9970));
    assert_eq!(calculate_net_amount(100, 20_000), Err(ErrorCode::MathOverflow));
    assert_eq!(calculate_net_amount(u64::MAX, 2), Err(ErrorCode::MathOverflow));
}

#[test]
fn slippage_within_tolerance_passes() {
    assert_eq!(validate_slippage(1000, 990, 100), Ok(()));
    assert_eq!(validate_slippage(1000, 1000, 0), Ok(()));
    assert_eq!(validate_slippage(1000, 0, 10_000), Ok(()));
}

#[test]
fn slippage_beyond_tolerance_fails() {
    assert_eq!(validate_slippage(1000, 989, 100), Err(ErrorCode::SlippageExceeded));
    assert_eq!(validate_slippage(u64::MAX, 0, 1), Err(ErrorCode::MathOverflow));
}

#[test]
fn price_impact_in_basis_points() {
    assert_eq!(calculate_price_impact(100, 0, 0, 0), Ok(0));
    assert_eq!(calculate_price_impact(100, 90, 1000, 900), Ok(1000));
    assert_eq!(calculate_price_impact(2000, 0, 1000, 0), Ok(10_000));
    assert_eq!(calculate_price_impact(7, 0, 1, 0), Ok(10_000));
    assert_eq!(calculate_price_impact(9999, 0, 10_000, 0), Ok(9999));
    assert_eq!(calculate_price_impact(u64::MAX, 0, 1, 0), Err(ErrorCode::MathOverflow));
}

#[test]
fn dex_program_must_match() {
    let a = Address::new([3u8; 32]);
    let mut other = [3u8; 32];
    other[31] = 4;
    assert_eq!(validate_dex_program(&a, &a), Ok(()));
    assert_eq!(validate_dex_program(&a, &Address::new(other)), Err(ErrorCode::InvalidDexProgram));
}
