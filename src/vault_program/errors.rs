use vstd::prelude::*;

verus! {

/// Failures of the vault's operations.
#[derive(Clone, Copy, Debug, PartialEq, Eq, Structural)]
pub enum ErrorCode {
    InsufficientProfit,
    InsufficientShares,
    InvalidSwapRouter,
    MathOverflow,
    InvalidAuthority,
    SlippageExceeded,
    InvalidTokenMint,
    InsufficientVaultBalance,
    InvalidMinProfit,
}

} // verus!
