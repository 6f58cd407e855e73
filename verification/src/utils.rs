//! Canonical storage-address derivation: the one place the library leans on
//! the host ledger's derivation function, and the check every operation runs
//! against a caller-supplied record address.

use vstd::prelude::*;
use crate::keys::{Key, key_to_vec, bytes_eq_key};
use crate::accounts::Account;

verus! {

/// The address and disambiguator byte the host ledger's derivation function
/// assigns to a seed tuple under a program identity, or `None` in the
/// (statistically improbable) case that no disambiguator byte yields a
/// usable address. The derivation is a pure function of its arguments; its
/// definition (hashing plus an off-curve search) is left uninterpreted.
pub uninterp spec fn pda_of(seeds: Seq<Seq<u8>>, program_id: Seq<u8>) -> Option<(Seq<u8>, u8)>;

/// Relies on `solana_program::pubkey::Pubkey::try_find_program_address`: a
/// deterministic function of the seed tuple and the program identity alone,
/// returning `None` exactly when no disambiguator byte yields a usable
/// address (also for an over-long seed tuple). It never panics.
#[verifier::external_body]
fn try_find_pda(seeds: &Vec<Vec<u8>>, program_id: &Vec<u8>) -> (r: Option<(Vec<u8>, u8)>)
    requires
        program_id@.len() == 32,
    ensures
        r matches Some(p) ==> pda_of(seeds.deep_view(), program_id@) == Some((p.0@, p.1)),
        r is None ==> pda_of(seeds.deep_view(), program_id@) is None,
{
    let refs: Vec<&[u8]> = seeds.iter().map(|s| s.as_slice()).collect();
    let pid = solana_program::pubkey::Pubkey::new_from_array(
        program_id.as_slice().try_into().unwrap(),
    );
    solana_program::pubkey::Pubkey::try_find_program_address(&refs, &pid).map(
        |p: (solana_program::pubkey::Pubkey, u8)| (p.0.to_bytes().to_vec(), p.1),
    )
}

/// What [`validate_client_pda`] returns: whether the candidate address is
/// exactly the address derived for this seed tuple, and the derivation's
/// disambiguator byte.
pub open spec fn spec_validate_client_pda(candidate: Key, seeds: Seq<Seq<u8>>, program_id: Key) -> (
    bool,
    u8,
) {
    match pda_of(seeds, program_id.bytes()) {
        Some(p) => (p.0 == candidate.bytes(), p.1),
        None => (false, 0),
    }
}

/// Re-derives the canonical storage address for `seeds` and compares it with
/// the address of the caller-supplied account. This comparison is the sole
/// mechanism binding a logical record identity to a physical storage slot.
pub fn validate_client_pda(client_pda: &Account, seeds: &Vec<Vec<u8>>, program_id: &Key) -> (r: (
    bool,
    u8,
))
    ensures
        r == spec_validate_client_pda(client_pda.key, seeds.deep_view(), *program_id),
{
    let pid = key_to_vec(program_id);
    match try_find_pda(seeds, &pid) {
        None => (false, 0),
        Some((addr, bump)) => (bytes_eq_key(&addr, &client_pda.key), bump),
    }
}

} // verus!
