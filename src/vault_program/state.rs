use vstd::prelude::*;

use crate::address::Address;

verus! {

/// The shared pool: who administers it, which router it trusts, how many
/// shares are outstanding, and the bump of its derived signing address.
#[derive(Clone, Copy, Debug, PartialEq, Eq)]
pub struct Vault {
    pub authority: Address,
    pub swap_router: Address,
    pub total_shares: u64,
    pub bump: u8,
}

/// One depositor's claim on the pool.
#[derive(Clone, Copy, Debug, PartialEq, Eq)]
pub struct UserPosition {
    pub owner: Address,
    pub shares: u64,
}

/// What the vault reads of a token account: its mint, its owner and its balance.
#[derive(Clone, Copy, Debug, PartialEq, Eq)]
pub struct TokenAccount {
    pub mint: Address,
    pub owner: Address,
    pub amount: u64,
}

pub const VAULT_LEN: usize = 8 + 32 + 32 + 8 + 1;

pub const USER_POSITION_LEN: usize = 8 + 32 + 8;

} // verus!
