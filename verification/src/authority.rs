//! The authority deriver.
//!
//! The vault's transfer authority is not a party's identity but a controller
//! identity derived deterministically from a fixed protocol-wide seed and the
//! program's own identity, together with a disambiguation byte (the "bump").
//! The same inputs always re-derive the same controller, so every operation
//! can reconstruct it without any stored secret; no external party can sign
//! for it.

use vstd::prelude::*;

use crate::keys::Key;

verus! {

/// What the hosting ledger's address derivation returns for a seed and a
/// program id: the derived controller identity and its bump, or nothing in
/// the statistically improbable event that no bump yields a valid identity.
/// The result is a pure function of the two arguments.
pub uninterp spec fn derived_authority(seed: Seq<u8>, program_id: Seq<u8>) -> Option<
    (Seq<u8>, u8),
>;

/// The protocol-wide derivation seed, the bytes of "escrow".
pub open spec fn escrow_seed() -> Seq<u8> {
    seq![101u8, 115u8, 99u8, 114u8, 111u8, 119u8]
}

fn seed_bytes() -> (r: Vec<u8>)
    ensures
        r@ == escrow_seed(),
{
    let mut v: Vec<u8> = Vec::new();
    v.push(101u8);
    v.push(115u8);
    v.push(99u8);
    v.push(114u8);
    v.push(111u8);
    v.push(119u8);
    proof {
        assert(v@ =~= escrow_seed());
    }
    v
}

/// Relies on `Pubkey::try_find_program_address` (anchor_lang's re-export of
/// the Solana address derivation): the result is a deterministic function of
/// the seed and the program id alone, a 32-byte derived address and the bump
/// byte that produced it, or `None` when no bump yields a valid address.
#[verifier::external_body]
fn try_find_controller(seed: &Vec<u8>, program_id: &Key) -> (r: Option<(Key, u8)>)
    ensures
        match r {
            Some(p) => derived_authority(seed@, program_id@) matches Some(q) && q.0 == p.0@ && q.1
                == p.1,
            None => derived_authority(seed@, program_id@) is None,
        },
{
    let pid = anchor_lang::solana_program::pubkey::Pubkey::new_from_array(*program_id);
    match anchor_lang::solana_program::pubkey::Pubkey::try_find_program_address(
        &[seed.as_slice()],
        &pid,
    ) {
        Some((key, bump)) => Some((key.to_bytes(), bump)),
        None => None,
    }
}

/// Derive the controller identity and bump for a program id, from the fixed
/// protocol-wide seed.
pub fn derive_controller(program_id: &Key) -> (r: Option<(Key, u8)>)
    ensures
        match r {
            Some(p) => derived_authority(escrow_seed(), program_id@) matches Some(q) && q.0 == p.0@
                && q.1 == p.1,
            None => derived_authority(escrow_seed(), program_id@) is None,
        },
{
    let seed = seed_bytes();
    try_find_controller(&seed, program_id)
}

} // verus!
