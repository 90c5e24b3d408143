use vstd::prelude::*;

use anchor_lang::prelude::Pubkey;

use crate::address::Address;
use crate::vault_program::errors::ErrorCode;
use crate::vault_program::vault::{seeds_view, vault_seeds_of, vault_signer_seeds};

verus! {

/// The program-derived address for `seeds` under `program_id`, or `None`
/// where no such address exists.
pub uninterp spec fn program_address_of(seeds: Seq<Seq<u8>>, program_id: Seq<u8>) -> Option<Seq<u8>>;

pub open spec fn address_view(a: Option<Address>) -> Option<Seq<u8>> {
    match a {
        Some(a) => Some(a.bytes@),
        None => None,
    }
}

/// Relies on `Pubkey::create_program_address` of solana-program (re-exported
/// by anchor-lang): the derived address depends on the seeds and the program
/// id alone. Its errors (too many or too long seeds, a hash on the curve)
/// come back as `None`.
#[verifier::external_body]
fn create_program_address(seeds: &Vec<Vec<u8>>, program_id: &Address) -> (r: Option<Address>)
    ensures
        address_view(r) == program_address_of(seeds_view(seeds@), program_id.bytes@),
{
    let slices: Vec<&[u8]> = seeds.iter().map(|s| s.as_slice()).collect();
    let program = Pubkey::new_from_array(program_id.bytes);
    Pubkey::create_program_address(&slices, &program).ok().map(|k| Address { bytes: k.to_bytes() })
}

/// Accepts `vault_address` only when it is the `derived` address.
pub fn authority_matches(derived: Option<Address>, vault_address: &Address) -> (r: Result<(), ErrorCode>)
    ensures
        address_view(derived) == Some(vault_address.bytes@) ==> r == Ok::<(), ErrorCode>(()),
        address_view(derived) != Some(vault_address.bytes@) ==> r == Err::<(), ErrorCode>(
            ErrorCode::InvalidAuthority,
        ),
{
    match derived {
        Some(a) => {
            if a.equals(vault_address) {
                Ok(())
            } else {
                Err(ErrorCode::InvalidAuthority)
            }
        },
        None => Err(ErrorCode::InvalidAuthority),
    }
}

/// Checks the vault's signing capability by recomputing it: `vault_address`
/// must be the address derived from `["vault", [bump]]` under `program_id`.
/// A bump that does not reproduce it is rejected, never searched for again.
pub fn verify_vault_authority(vault_address: &Address, bump: u8, program_id: &Address) -> (r: Result<(), ErrorCode>)
    ensures
        program_address_of(vault_seeds_of(bump), program_id.bytes@) == Some(vault_address.bytes@)
            ==> r == Ok::<(), ErrorCode>(()),
        program_address_of(vault_seeds_of(bump), program_id.bytes@) != Some(vault_address.bytes@)
            ==> r == Err::<(), ErrorCode>(ErrorCode::InvalidAuthority),
{
    let seeds = vault_signer_seeds(bump);
    let derived = create_program_address(&seeds, program_id);
    authority_matches(derived, vault_address)
}

} // verus!
