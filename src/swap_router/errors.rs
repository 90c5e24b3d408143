use vstd::prelude::*;

verus! {

/// Failures of the router's shared arithmetic and validation helpers.
#[derive(Clone, Copy, Debug, PartialEq, Eq, Structural)]
pub enum ErrorCode {
    InvalidDexProgram,
    SwapFailed,
    InsufficientOutputAmount,
    PoolNotFound,
    InvalidTokenPair,
    SlippageExceeded,
    Unauthorized,
    InvalidFeeRate,
    MathOverflow,
    InvalidSwapAmount,
    InsufficientLiquidity,
    InvalidRoute,
    RouterNotInitialized,
    PoolMismatch,
    TokenMintMismatch,
}

} // verus!
