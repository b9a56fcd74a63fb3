//! The per-position store as a raw instruction processor: an eight-byte
//! instruction discriminator picks `enable` (followed by both thresholds as
//! little-endian u16) or `disable`.
use vstd::prelude::*;
use vstd::bytes::{spec_u16_from_le_bytes, u16_from_le_bytes};
use vstd::slice::slice_subrange;
use crate::authorization::{disable, disable_post, enable, enable_post, AccountState, ProgramError};

verus! {

/// Discriminator of the enable instruction.
pub open spec fn ix_enable() -> Seq<u8> {
    seq![94u8, 247u8, 51u8, 161u8, 142u8, 177u8, 235u8, 11u8]
}

/// Discriminator of the disable instruction.
pub open spec fn ix_disable() -> Seq<u8> {
    seq![170u8, 206u8, 89u8, 64u8, 74u8, 71u8, 94u8, 214u8]
}

/// Whether `data` opens with `disc`.
fn starts_with(data: &[u8], disc: &[u8; 8]) -> (r: bool)
    requires
        data@.len() >= 8,
    ensures
        r == (data@.subrange(0, 8) == disc@),
{
    let mut i: usize = 0;
    while i < 8
        invariant
            0 <= i <= 8,
            data@.len() >= 8,
            disc@.len() == 8,
            forall|j: int| 0 <= j < i ==> data@[j] == disc@[j],
        decreases 8 - i,
    {
        if data[i] != disc[i] {
            assert(data@.subrange(0, 8)[i as int] != disc@[i as int]);
            return false;
        }
        i = i + 1;
    }
    assert(data@.subrange(0, 8) =~= disc@);
    true
}

/// Enables rebalancing for a position, reading both thresholds from `data`.
pub fn process_enable(
    program_id: &[u8; 32],
    owner: &mut AccountState,
    config: &mut AccountState,
    position_mint: &[u8; 32],
    data: &[u8],
    now: i64,
    rent_minimum: u64,
) -> (r: Result<(), ProgramError>)
    ensures
        !old(owner).is_signer ==> r == Err::<(), ProgramError>(ProgramError::MissingRequiredSignature)
            && *final(owner) == *old(owner) && *final(config) == *old(config),
        old(owner).is_signer && data@.len() < 4 ==> r == Err::<(), ProgramError>(
            ProgramError::InvalidInstructionData,
        ) && *final(owner) == *old(owner) && *final(config) == *old(config),
        old(owner).is_signer && data@.len() >= 4 ==> enable_post(program_id@, *old(owner),
            *old(config), *final(owner), *final(config), Some(position_mint@),
            spec_u16_from_le_bytes(data@.subrange(0, 2)),
            spec_u16_from_le_bytes(data@.subrange(2, 4)), now, rent_minimum, r),
{
    if !owner.is_signer {
        return Err(ProgramError::MissingRequiredSignature);
    }
    if data.len() < 4 {
        return Err(ProgramError::InvalidInstructionData);
    }
    let max_slippage_bps = u16_from_le_bytes(slice_subrange(data, 0, 2));
    let min_yield_bps = u16_from_le_bytes(slice_subrange(data, 2, 4));
    enable(
        program_id,
        owner,
        config,
        Some(*position_mint),
        max_slippage_bps,
        min_yield_bps,
        now,
        rent_minimum,
    )
}

/// Erases the record of a position.
pub fn process_disable(
    program_id: &[u8; 32],
    owner: &mut AccountState,
    config: &mut AccountState,
    position_mint: &[u8; 32],
) -> (r: Result<(), ProgramError>)
    ensures
        disable_post(program_id@, *old(owner), *old(config), *final(owner), *final(config),
            Some(position_mint@), r),
{
    disable(program_id, owner, config, Some(*position_mint))
}

/// Routes an instruction by its discriminator. Unknown or short instructions
/// are refused before anything changes.
pub fn process_instruction(
    program_id: &[u8; 32],
    owner: &mut AccountState,
    config: &mut AccountState,
    position_mint: &[u8; 32],
    instruction_data: &[u8],
    now: i64,
    rent_minimum: u64,
) -> (r: Result<(), ProgramError>)
    ensures
        ({
            let d = instruction_data@;
            let refused = d.len() < 8 || (d.subrange(0, 8) != ix_enable() && d.subrange(0, 8)
                != ix_disable());
            let args = d.subrange(8, d.len() as int);
            &&& refused ==> r == Err::<(), ProgramError>(ProgramError::InvalidInstructionData)
                && *final(owner) == *old(owner) && *final(config) == *old(config)
            &&& !refused && d.subrange(0, 8) == ix_disable() ==> disable_post(program_id@,
                *old(owner), *old(config), *final(owner), *final(config), Some(position_mint@), r)
            &&& !refused && d.subrange(0, 8) == ix_enable() && !old(owner).is_signer ==> r
                == Err::<(), ProgramError>(ProgramError::MissingRequiredSignature) && *final(owner)
                == *old(owner) && *final(config) == *old(config)
            &&& !refused && d.subrange(0, 8) == ix_enable() && old(owner).is_signer && args.len()
                < 4 ==> r == Err::<(), ProgramError>(ProgramError::InvalidInstructionData)
                && *final(owner) == *old(owner) && *final(config) == *old(config)
            &&& !refused && d.subrange(0, 8) == ix_enable() && old(owner).is_signer && args.len()
                >= 4 ==> enable_post(program_id@, *old(owner), *old(config), *final(owner),
                *final(config), Some(position_mint@), spec_u16_from_le_bytes(
                args.subrange(0, 2)), spec_u16_from_le_bytes(args.subrange(2, 4)), now,
                rent_minimum, r)
        }),
{
    if instruction_data.len() < 8 {
        return Err(ProgramError::InvalidInstructionData);
    }
    let ix_enable_disc: [u8; 8] = [94, 247, 51, 161, 142, 177, 235, 11];
    let ix_disable_disc: [u8; 8] = [170, 206, 89, 64, 74, 71, 94, 214];
    assert(ix_enable_disc@ =~= ix_enable());
    assert(ix_disable_disc@ =~= ix_disable());
    if starts_with(instruction_data, &ix_enable_disc) {
        let args = slice_subrange(instruction_data, 8, instruction_data.len());
        assert(args@.subrange(0, 2) =~= instruction_data@.subrange(8, instruction_data@.len() as int).subrange(0, 2));
        assert(args@.subrange(2, 4) =~= instruction_data@.subrange(8, instruction_data@.len() as int).subrange(2, 4));
        process_enable(program_id, owner, config, position_mint, args, now, rent_minimum)
    } else if starts_with(instruction_data, &ix_disable_disc) {
        process_disable(program_id, owner, config, position_mint)
    } else {
        Err(ProgramError::InvalidInstructionData)
    }
}

} // verus!
