use vstd::prelude::*;

use crate::address::Address;

verus! {

/// Settlement record of a successful arbitrage.
#[derive(Clone, Copy, Debug, PartialEq, Eq)]
pub struct ArbitrageExecuted {
    pub executor: Address,
    pub profit: u64,
    pub executor_fee: u64,
    pub vault_profit: u64,
}

/// Record of a deposit: the amount paid in and the shares minted for it.
#[derive(Clone, Copy, Debug, PartialEq, Eq)]
pub struct Deposited {
    pub user: Address,
    pub amount: u64,
    pub shares: u64,
}

/// Record of a withdrawal: the shares burned and the amount paid out.
#[derive(Clone, Copy, Debug, PartialEq, Eq)]
pub struct Withdrawn {
    pub user: Address,
    pub amount: u64,
    pub shares: u64,
}

} // verus!
