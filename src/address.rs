//! Deterministic derived addresses: a storage address is computed from a
//! list of seeds and the owning program's id.
use vstd::prelude::*;

verus! {

/// The most seeds that one derivation may take, the bump seed included.
pub const MAX_SEEDS: usize = 16;

/// The longest seed that a derivation accepts.
pub const MAX_SEED_LEN: usize = 32;

/// The derived address and bump seed for `seeds` under `program_id`, where one exists.
pub uninterp spec fn program_address_of(seeds: Seq<Seq<u8>>, program_id: Seq<u8>) -> Option<(Seq<u8>, u8)>;

/// Seeds that the derivation refuses: too many of them (room must be left for the
/// bump seed), or one that is too long.
pub open spec fn seeds_out_of_bounds(seeds: Seq<Seq<u8>>) -> bool {
    seeds.len() >= MAX_SEEDS || exists|i: int| 0 <= i < seeds.len() && #[trigger] seeds[i].len() > MAX_SEED_LEN
}

/// Relies on solana_program's `Pubkey::try_find_program_address`: the address and
/// bump that it finds depend on the seeds and the program id alone, and it finds
/// none when the seeds with the bump seed appended break the seed limits.
#[verifier::external_body]
fn try_find_program_address(seeds: &Vec<Vec<u8>>, program_id: &[u8; 32]) -> (r: Option<([u8; 32], u8)>)
    ensures
        r.is_some() == program_address_of(seeds.deep_view(), program_id@).is_some(),
        r matches Some(p) ==> program_address_of(seeds.deep_view(), program_id@) == Some((p.0@, p.1)),
        seeds_out_of_bounds(seeds.deep_view()) ==> r.is_none(),
{
    let refs: Vec<&[u8]> = seeds.iter().map(|s| s.as_slice()).collect();
    let program = solana_program::pubkey::Pubkey::new_from_array(*program_id);
    solana_program::pubkey::Pubkey::try_find_program_address(&refs, &program)
        .map(|(key, bump)| (key.to_bytes(), bump))
}

/// The address derived from `seeds` under `program_id`, if the derivation finds one.
pub open spec fn derived_address(seeds: Seq<Seq<u8>>, program_id: Seq<u8>) -> Option<Seq<u8>> {
    match program_address_of(seeds, program_id) {
        Some(p) => Some(p.0),
        None => None,
    }
}

/// Derives the address for `seeds` under `program_id`.
pub fn find_address(seeds: &Vec<Vec<u8>>, program_id: &[u8; 32]) -> (r: Option<([u8; 32], u8)>)
    ensures
        r.is_some() == derived_address(seeds.deep_view(), program_id@).is_some(),
        r matches Some(p) ==> program_address_of(seeds.deep_view(), program_id@) == Some((p.0@, p.1)),
        seeds_out_of_bounds(seeds.deep_view()) ==> r.is_none(),
{
    try_find_program_address(seeds, program_id)
}

/// Compares two keys byte by byte.
pub fn keys_equal(a: &[u8; 32], b: &[u8; 32]) -> (r: bool)
    ensures
        r == (a@ == b@),
{
    let mut i: usize = 0;
    while i < 32
        invariant
            0 <= i <= 32,
            a@.len() == 32,
            b@.len() == 32,
            forall|j: int| 0 <= j < i ==> a@[j] == b@[j],
        decreases 32 - i,
    {
        if a[i] != b[i] {
            return false;
        }
        i = i + 1;
    }
    assert(a@ =~= b@);
    true
}

/// Checks a supplied storage address against the one derived from `seeds`:
/// a caller may not substitute a slot of its own choosing.
pub fn address_matches(supplied: &[u8; 32], seeds: &Vec<Vec<u8>>, program_id: &[u8; 32]) -> (r: bool)
    ensures
        r == (derived_address(seeds.deep_view(), program_id@) == Some(supplied@)),
{
    match find_address(seeds, program_id) {
        Some(p) => keys_equal(supplied, &p.0),
        None => false,
    }
}

} // verus!
