//! The addresses the court needs from the Solana runtime: the system
//! program's address and program derived addresses.

use vstd::prelude::*;

use crate::pubkey::Pubkey;
use vstd::string::StringSliceAdditionalSpecFns;
use crate::state::COURT_TREASURY_AUTHORITY_PDA_SEED;

verus! {

/// The address and bump seed that `Pubkey::try_find_program_address` derives
/// from a list of seeds and a program id (`None` when no bump gives an address
/// off the ed25519 curve, or the seeds are too many or too long). It depends on
/// its arguments alone.
pub uninterp spec fn program_address(seeds: Seq<Seq<u8>>, program_id: Pubkey) -> Option<(Pubkey, u8)>;

/// The bytes of each seed.
pub open spec fn seeds_view(seeds: Seq<Vec<u8>>) -> Seq<Seq<u8>> {
    seeds.map_values(|s: Vec<u8>| s@)
}

/// Calls anchor's `Pubkey::try_find_program_address(seeds, program_id)`.
/// Claimed: its result is `program_address(seeds, program_id)`, the address
/// converted to its 32 bytes.
#[verifier::external_body]
pub(crate) fn try_find_program_address(seeds: &Vec<Vec<u8>>, program_id: &Pubkey) -> (r: Option<(Pubkey, u8)>)
    ensures
        r == program_address(seeds_view(seeds@), *program_id),
{
    let seeds: Vec<&[u8]> = seeds.iter().map(|s| s.as_slice()).collect();
    let id = anchor_lang::prelude::Pubkey::new_from_array(program_id.bytes);
    match anchor_lang::prelude::Pubkey::try_find_program_address(&seeds, &id) {
        Some((address, bump)) => Some((Pubkey { bytes: address.to_bytes() }, bump)),
        None => None,
    }
}

/// Calls anchor's `System::id()`, the system program's address.
/// Claimed: the address is `11111111111111111111111111111111` in base58,
/// that is 32 zero bytes.
#[verifier::external_body]
fn system_program_id() -> (r: Pubkey)
    ensures
        r.is_zero(),
{
    Pubkey { bytes: <anchor_lang::system_program::System as anchor_lang::Id>::id().to_bytes() }
}

/// Whether an address is the system program's, the owner recorded in a
/// settings account that was never initialized.
pub fn is_system_program(key: &Pubkey) -> (r: bool)
    ensures
        r == key.is_zero(),
{
    let system = system_program_id();
    let r = *key == system;
    proof {
        if key.is_zero() {
            crate::pubkey::lemma_pubkey_eq_by_bytes(*key, system);
        }
    }
    r
}

/// The authority that owns the court treasury token account: the address the
/// program derives from `COURT_TREASURY_AUTHORITY_PDA_SEED`, with its bump.
pub fn find_treasury_authority(program_id: &Pubkey) -> (r: Option<(Pubkey, u8)>)
    ensures
        r == program_address(seq![COURT_TREASURY_AUTHORITY_PDA_SEED.spec_bytes()], *program_id),
{
    let seeds = vec![vstd::slice::slice_to_vec(COURT_TREASURY_AUTHORITY_PDA_SEED.as_bytes())];
    assert(seeds_view(seeds@) =~= seq![COURT_TREASURY_AUTHORITY_PDA_SEED.spec_bytes()]);
    try_find_program_address(&seeds, program_id)
}

} // verus!
