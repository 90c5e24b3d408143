use vstd::prelude::*;

use crate::address::{jupiter_v6, jupiter_v6_id, Address};

verus! {

/// The router's persistent record.
#[derive(Clone, Copy, Debug, PartialEq, Eq)]
pub struct RouterState {
    pub authority: Address,
    /// Fee rate in basis points, at most 1000.
    pub fee_rate_bps: u16,
    pub total_swaps: u64,
    pub total_volume: u64,
    pub bump: u8,
}

pub const ROUTER_STATE_INIT_SPACE: usize = 32 + 2 + 8 + 8 + 1;

pub const MAX_FEE_RATE_BPS: u16 = 1000;

impl RouterState {
    pub open spec fn wf(&self) -> bool {
        self.fee_rate_bps <= MAX_FEE_RATE_BPS
    }
}

/// A read-only projection of the router's record.
#[derive(Clone, Copy, Debug, PartialEq, Eq)]
pub struct RouterStats {
    pub authority: Address,
    pub fee_rate_bps: u16,
    pub total_swaps: u64,
    pub total_volume: u64,
}

/// One account of a forwarded call, with the flags the caller gave it.
#[derive(Clone, Copy, Debug, PartialEq, Eq)]
pub struct AccountMeta {
    pub pubkey: Address,
    pub is_signer: bool,
    pub is_writable: bool,
}

/// A call into another program: its id, its accounts and its payload.
#[derive(Clone, Debug, PartialEq, Eq)]
pub struct Instruction {
    pub program_id: Address,
    pub accounts: Vec<AccountMeta>,
    pub data: Vec<u8>,
}

/// A call to be signed with the seeds of a derived address.
#[derive(Clone, Debug, PartialEq, Eq)]
pub struct SignedInstruction {
    pub instruction: Instruction,
    pub signer_seeds: Vec<Vec<u8>>,
}

/// Failures of the router's operations.
#[derive(Clone, Copy, Debug, PartialEq, Eq, Structural)]
pub enum ErrorCode {
    InvalidJupiterProgram,
    InvalidFeeRate,
    EmptyInstructionData,
    Unauthorized,
}

/// What creating the router reads: its administrator and the bump of its
/// derived address.
#[derive(Clone, Copy, Debug)]
pub struct InitializeRouter {
    pub authority: Address,
    pub bump: u8,
}

/// What a direct swap reads and writes; the caller signs for itself.
#[derive(Clone, Copy, Debug)]
pub struct ExecuteJupiterSwap {
    pub router_state: RouterState,
    pub user: Address,
    pub jupiter_program: Address,
}

/// What a swap on the vault's behalf reads and writes; the vault's derived
/// address signs.
#[derive(Clone, Copy, Debug)]
pub struct ExecuteVaultJupiterSwap {
    pub router_state: RouterState,
    pub vault_authority: Address,
    pub jupiter_program: Address,
}

/// What the statistics query reads.
#[derive(Clone, Copy, Debug)]
pub struct GetStats {
    pub router_state: RouterState,
}

/// The checks made before anything is forwarded: the target must be the
/// aggregator, and the payload non-empty.
pub open spec fn forward_check(program: Seq<u8>, data: Seq<u8>) -> Result<(), ErrorCode> {
    if program != jupiter_v6_id() {
        Err(ErrorCode::InvalidJupiterProgram)
    } else if data.len() == 0 {
        Err(ErrorCode::EmptyInstructionData)
    } else {
        Ok(())
    }
}

/// The forwarded call: to the aggregator, with the accounts and payload as given.
pub open spec fn forwards(ix: Instruction, accounts: Seq<AccountMeta>, data: Seq<u8>) -> bool {
    &&& ix.program_id.bytes@ == jupiter_v6_id()
    &&& ix.accounts@ == accounts
    &&& ix.data@ == data
}

/// Checks a swap before anything is forwarded or counted: the target must
/// be the aggregator, and the payload non-empty.
pub fn check_forward(jupiter_program: &Address, jupiter_instruction_data: &Vec<u8>) -> (r: Result<(), ErrorCode>)
    ensures
        r == forward_check(jupiter_program.bytes@, jupiter_instruction_data@),
{
    let expected = jupiter_v6();
    if !jupiter_program.equals(&expected) {
        return Err(ErrorCode::InvalidJupiterProgram);
    }
    if jupiter_instruction_data.len() == 0 {
        return Err(ErrorCode::EmptyInstructionData);
    }
    Ok(())
}

/// A new router record with no swaps counted; the fee rate must be at most
/// 1000 basis points.
pub fn initialize_router(ctx: &InitializeRouter, fee_rate_bps: u16) -> (r: Result<RouterState, ErrorCode>)
    ensures
        fee_rate_bps > MAX_FEE_RATE_BPS ==> r == Err::<RouterState, ErrorCode>(ErrorCode::InvalidFeeRate),
        fee_rate_bps <= MAX_FEE_RATE_BPS ==> r == Ok::<RouterState, ErrorCode>(
            (RouterState {
                authority: ctx.authority,
                fee_rate_bps,
                total_swaps: 0,
                total_volume: 0,
                bump: ctx.bump,
            }),
        ),
        r matches Ok(s) ==> s.wf(),
{
    if fee_rate_bps > MAX_FEE_RATE_BPS {
        return Err(ErrorCode::InvalidFeeRate);
    }
    Ok(RouterState { authority: ctx.authority, fee_rate_bps, total_swaps: 0, total_volume: 0, bump: ctx.bump })
}

/// Validates a direct swap and builds the call to forward, counting it. The
/// accounts are passed through as given: which accounts the aggregator needs
/// is the caller's responsibility. Nothing changes on failure.
pub fn execute_jupiter_swap(
    ctx: &mut ExecuteJupiterSwap,
    remaining_accounts: Vec<AccountMeta>,
    jupiter_instruction_data: Vec<u8>,
) -> (r: Result<Instruction, ErrorCode>)
    requires
        forward_check(old(ctx).jupiter_program.bytes@, jupiter_instruction_data@) is Ok
            ==> old(ctx).router_state.total_swaps < u64::MAX,
    ensures
        match forward_check(old(ctx).jupiter_program.bytes@, jupiter_instruction_data@) {
            Ok(_) => {
                &&& r matches Ok(ix) && forwards(ix, remaining_accounts@, jupiter_instruction_data@)
                &&& final(ctx).router_state == (RouterState {
                    total_swaps: (old(ctx).router_state.total_swaps + 1) as u64,
                    ..old(ctx).router_state
                })
                &&& final(ctx).user == old(ctx).user
                &&& final(ctx).jupiter_program == old(ctx).jupiter_program
            },
            Err(e) => r == Err::<Instruction, ErrorCode>(e) && *final(ctx) == *old(ctx),
        },
        jupiter_instruction_data@.len() == 0 ==> r is Err && *final(ctx) == *old(ctx),
{
    if let Err(e) = check_forward(&ctx.jupiter_program, &jupiter_instruction_data) {
        return Err(e);
    }
    let expected = jupiter_v6();
    ctx.router_state.total_swaps = ctx.router_state.total_swaps + 1;
    Ok(Instruction { program_id: expected, accounts: remaining_accounts, data: jupiter_instruction_data })
}

/// Validates a swap on the vault's behalf and builds the call to forward,
/// signed with the vault's seeds as given, counting it. Nothing changes on
/// failure.
pub fn execute_vault_jupiter_swap(
    ctx: &mut ExecuteVaultJupiterSwap,
    remaining_accounts: Vec<AccountMeta>,
    jupiter_instruction_data: Vec<u8>,
    vault_seeds: Vec<Vec<u8>>,
) -> (r: Result<SignedInstruction, ErrorCode>)
    requires
        forward_check(old(ctx).jupiter_program.bytes@, jupiter_instruction_data@) is Ok
            ==> old(ctx).router_state.total_swaps < u64::MAX,
    ensures
        match forward_check(old(ctx).jupiter_program.bytes@, jupiter_instruction_data@) {
            Ok(_) => {
                &&& r matches Ok(s) && forwards(s.instruction, remaining_accounts@, jupiter_instruction_data@)
                    && s.signer_seeds@ == vault_seeds@
                &&& final(ctx).router_state == (RouterState {
                    total_swaps: (old(ctx).router_state.total_swaps + 1) as u64,
                    ..old(ctx).router_state
                })
                &&& final(ctx).vault_authority == old(ctx).vault_authority
                &&& final(ctx).jupiter_program == old(ctx).jupiter_program
            },
            Err(e) => r == Err::<SignedInstruction, ErrorCode>(e) && *final(ctx) == *old(ctx),
        },
        jupiter_instruction_data@.len() == 0 ==> r is Err && *final(ctx) == *old(ctx),
{
    if let Err(e) = check_forward(&ctx.jupiter_program, &jupiter_instruction_data) {
        return Err(e);
    }
    let expected = jupiter_v6();
    ctx.router_state.total_swaps = ctx.router_state.total_swaps + 1;
    let instruction = Instruction {
        program_id: expected,
        accounts: remaining_accounts,
        data: jupiter_instruction_data,
    };
    Ok(SignedInstruction { instruction, signer_seeds: vault_seeds })
}

/// The router's counters and settings, as stored.
pub fn get_stats(ctx: &GetStats) -> (r: RouterStats)
    ensures
        r == (RouterStats {
            authority: ctx.router_state.authority,
            fee_rate_bps: ctx.router_state.fee_rate_bps,
            total_swaps: ctx.router_state.total_swaps,
            total_volume: ctx.router_state.total_volume,
        }),
{
    let s = &ctx.router_state;
    RouterStats {
        authority: s.authority,
        fee_rate_bps: s.fee_rate_bps,
        total_swaps: s.total_swaps,
        total_volume: s.total_volume,
    }
}

} // verus!
