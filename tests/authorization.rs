use poseidon::address::find_address;
use poseidon::authorization::{
    disable, disable_rebalance, enable, enable_rebalance, is_enabled, lookup, seeds_for, AccountState,
    ProgramError,
};
use poseidon::config::{encode_config, read_config, write_config, RebalanceConfig};
use poseidon::native::process_instruction;

const PROGRAM: [u8; 32] = [7u8; 32];
const RENT: u64 = 1_000;

fn owner(k: u8, lamports: u64) -> AccountState {
    AccountState { key: [k; 32], is_signer: true, lamports, data: Vec::new() }
}

fn config_for(owner_key: &[u8; 32], position: Option<[u8; 32]>) -> AccountState {
    let seeds = seeds_for(owner_key, &position);
    let (key, _) = find_address(&seeds, &PROGRAM).unwrap();
    AccountState { key, is_signer: false, lamports: 0, data: Vec::new() }
}

#[test]
fn enable_creates_record_with_layout() {
    let mut o = owner(1, 5_000);
    let pos = [9u8; 32];
    let mut c = config_for(&o.key, Some(pos));
    enable_rebalance(&PROGRAM, &mut o, &mut c, &pos, 50, 20, 1_700_000_000, RENT).unwrap();
    assert_eq!(o.lamports, 4_000);
    assert_eq!(c.lamports, RENT);
    assert_eq!(c.data.len(), 93);
    assert_eq!(&c.data[..8], &[111, 187, 136, 118, 41, 244, 175, 141]);
    assert_eq!(&c.data[8..40], &[1u8; 32]);
    assert_eq!(&c.data[40..72], &[9u8; 32]);
    assert_eq!(c.data[72], 1);
    assert_eq!(&c.data[73..75], &50u16.to_le_bytes());
    assert_eq!(&c.data[75..77], &20u16.to_le_bytes());
    assert_eq!(&c.data[77..85], &1_700_000_000i64.to_le_bytes());
    assert_eq!(&c.data[85..93], &1_700_000_000i64.to_le_bytes());
    let r = is_enabled(&PROGRAM, &o.key, &c, &pos).unwrap();
    assert!(r.enabled);
    assert_eq!(r.max_slippage_bps, 50);
    assert_eq!(r.min_yield_improvement_bps, 20);
}

#[test]
fn reenable_keeps_owner_position_and_creation() {
    let mut o = owner(1, 5_000);
    let pos = [9u8; 32];
    let mut c = config_for(&o.key, Some(pos));
    enable_rebalance(&PROGRAM, &mut o, &mut c, &pos, 50, 20, 100, RENT).unwrap();
    enable_rebalance(&PROGRAM, &mut o, &mut c, &pos, 75, 30, 200, RENT).unwrap();
    assert_eq!(o.lamports, 4_000);
    let r = is_enabled(&PROGRAM, &o.key, &c, &pos).unwrap();
    assert_eq!(r.owner, [1u8; 32]);
    assert_eq!(r.position_mint, Some(pos));
    assert_eq!(r.created_at, 100);
    assert_eq!(r.updated_at, 200);
    assert_eq!(r.max_slippage_bps, 75);
    assert_eq!(r.min_yield_improvement_bps, 30);
}

#[test]
fn non_owner_cannot_update_or_erase() {
    let mut o = owner(1, 5_000);
    let pos = [9u8; 32];
    let mut c = config_for(&o.key, Some(pos));
    enable_rebalance(&PROGRAM, &mut o, &mut c, &pos, 50, 20, 100, RENT).unwrap();
    let before = c.data.clone();
    let mut intruder = owner(2, 5_000);
    assert_eq!(
        enable_rebalance(&PROGRAM, &mut intruder, &mut c, &pos, 1, 1, 300, RENT),
        Err(ProgramError::IllegalOwner)
    );
    assert_eq!(disable_rebalance(&PROGRAM, &mut intruder, &mut c, &pos), Err(ProgramError::IllegalOwner));
    assert_eq!(c.data, before);
    assert_eq!(c.lamports, RENT);
    assert_eq!(intruder.lamports, 5_000);
}

#[test]
fn disable_zeroes_and_refunds() {
    let mut o = owner(1, 5_000);
    let pos = [9u8; 32];
    let mut c = config_for(&o.key, Some(pos));
    enable_rebalance(&PROGRAM, &mut o, &mut c, &pos, 50, 20, 100, RENT).unwrap();
    disable_rebalance(&PROGRAM, &mut o, &mut c, &pos).unwrap();
    assert_eq!(o.lamports, 5_000);
    assert_eq!(c.lamports, 0);
    assert!(c.data.iter().all(|b| *b == 0));
    assert_eq!(is_enabled(&PROGRAM, &o.key, &c, &pos), Err(ProgramError::AccountNotInitialized));
    // A later enable starts afresh.
    enable_rebalance(&PROGRAM, &mut o, &mut c, &pos, 5, 6, 400, RENT).unwrap();
    assert_eq!(is_enabled(&PROGRAM, &o.key, &c, &pos).unwrap().created_at, 400);
}

#[test]
fn lookup_of_absent_record_fails() {
    let o = owner(1, 0);
    let c = config_for(&o.key, None);
    assert_eq!(lookup(&PROGRAM, &o.key, &c, None), Err(ProgramError::AccountNotInitialized));
}

#[test]
fn distinct_identities_get_distinct_addresses() {
    let a = config_for(&[1u8; 32], Some([9u8; 32]));
    let b = config_for(&[2u8; 32], Some([9u8; 32]));
    let c = config_for(&[1u8; 32], Some([8u8; 32]));
    let d = config_for(&[1u8; 32], None);
    let keys = [a.key, b.key, c.key, d.key];
    for i in 0..keys.len() {
        for j in 0..keys.len() {
            if i != j {
                assert_ne!(keys[i], keys[j]);
            }
        }
    }
}

#[test]
fn address_of_another_identity_is_refused() {
    let pos = [9u8; 32];
    let mut a_config = config_for(&[1u8; 32], Some(pos));
    let mut b = owner(2, 5_000);
    assert_eq!(
        enable_rebalance(&PROGRAM, &mut b, &mut a_config, &pos, 1, 1, 1, RENT),
        Err(ProgramError::InvalidSeeds)
    );
    assert!(a_config.data.is_empty());
    assert_eq!(b.lamports, 5_000);
}

#[test]
fn per_owner_record() {
    let mut o = owner(3, 2_000);
    let mut c = config_for(&o.key, None);
    enable(&PROGRAM, &mut o, &mut c, None, 10, 11, 50, RENT).unwrap();
    assert_eq!(c.data.len(), 61);
    let r = lookup(&PROGRAM, &o.key, &c, None).unwrap();
    assert_eq!(r.position_mint, None);
    assert_eq!(r.max_slippage_bps, 10);
    disable(&PROGRAM, &mut o, &mut c, None).unwrap();
    assert_eq!(o.lamports, 2_000);
}

#[test]
fn unsigned_owner_is_refused() {
    let mut o = owner(1, 5_000);
    o.is_signer = false;
    let pos = [9u8; 32];
    let mut c = config_for(&o.key, Some(pos));
    assert_eq!(
        enable_rebalance(&PROGRAM, &mut o, &mut c, &pos, 1, 1, 1, RENT),
        Err(ProgramError::MissingRequiredSignature)
    );
    assert_eq!(disable_rebalance(&PROGRAM, &mut o, &mut c, &pos), Err(ProgramError::MissingRequiredSignature));
}

#[test]
fn creation_needs_rent() {
    let mut o = owner(1, 999);
    let pos = [9u8; 32];
    let mut c = config_for(&o.key, Some(pos));
    assert_eq!(
        enable_rebalance(&PROGRAM, &mut o, &mut c, &pos, 1, 1, 1, RENT),
        Err(ProgramError::InsufficientFunds)
    );
    assert!(c.data.is_empty());
}

#[test]
fn refund_overflow_is_refused() {
    let mut o = owner(1, 5_000);
    let pos = [9u8; 32];
    let mut c = config_for(&o.key, Some(pos));
    enable_rebalance(&PROGRAM, &mut o, &mut c, &pos, 1, 1, 1, RENT).unwrap();
    o.lamports = u64::MAX;
    assert_eq!(disable_rebalance(&PROGRAM, &mut o, &mut c, &pos), Err(ProgramError::ArithmeticOverflow));
    assert_eq!(c.lamports, RENT);
}

#[test]
fn longer_record_is_accepted() {
    let mut o = owner(1, 5_000);
    let pos = [9u8; 32];
    let mut c = config_for(&o.key, Some(pos));
    enable_rebalance(&PROGRAM, &mut o, &mut c, &pos, 50, 20, 100, RENT).unwrap();
    c.data.push(0x5A);
    enable_rebalance(&PROGRAM, &mut o, &mut c, &pos, 60, 25, 200, RENT).unwrap();
    assert_eq!(c.data.len(), 94);
    assert_eq!(c.data[93], 0x5A);
    let r = is_enabled(&PROGRAM, &o.key, &c, &pos).unwrap();
    assert_eq!((r.max_slippage_bps, r.created_at, r.updated_at), (60, 100, 200));
    disable_rebalance(&PROGRAM, &mut o, &mut c, &pos).unwrap();
    assert_eq!(c.data.len(), 94);
    assert!(c.data.iter().all(|b| *b == 0));
    assert_eq!(o.lamports, 5_000);
}

#[test]
fn foreign_address_is_refused_before_storage_is_judged() {
    let pos = [9u8; 32];
    let mut foreign = config_for(&[1u8; 32], Some(pos));
    foreign.data = vec![1u8; 10];
    let mut b = owner(2, 5_000);
    assert_eq!(
        enable_rebalance(&PROGRAM, &mut b, &mut foreign, &pos, 1, 1, 1, RENT),
        Err(ProgramError::InvalidSeeds)
    );
    let mut empty = config_for(&[1u8; 32], Some(pos));
    assert_eq!(disable_rebalance(&PROGRAM, &mut b, &mut empty, &pos), Err(ProgramError::InvalidSeeds));
    assert_eq!(is_enabled(&PROGRAM, &b.key, &empty, &pos), Err(ProgramError::InvalidSeeds));
    assert_eq!(foreign.data, vec![1u8; 10]);
    assert_eq!(b.lamports, 5_000);
}

#[test]
fn corrupt_record_is_refused() {
    let mut o = owner(1, 5_000);
    let pos = [9u8; 32];
    let mut c = config_for(&o.key, Some(pos));
    c.data = vec![1u8; 10];
    assert_eq!(
        enable_rebalance(&PROGRAM, &mut o, &mut c, &pos, 1, 1, 1, RENT),
        Err(ProgramError::InvalidAccountData)
    );
    assert_eq!(disable_rebalance(&PROGRAM, &mut o, &mut c, &pos), Err(ProgramError::InvalidAccountData));
}

#[test]
fn config_round_trips_through_bytes() {
    let cfg = RebalanceConfig {
        owner: [4u8; 32],
        position_mint: None,
        enabled: true,
        max_slippage_bps: 300,
        min_yield_improvement_bps: 65535,
        created_at: -5,
        updated_at: i64::MAX,
    };
    let bytes = encode_config(&cfg);
    assert_eq!(bytes.len(), 61);
    assert_eq!(read_config(&bytes, false), Some(cfg));
    assert_eq!(read_config(&bytes, true), None);
    let mut longer = vec![0xAAu8; 70];
    write_config(&mut longer, &cfg);
    assert_eq!(&longer[..61], &bytes[..]);
    assert_eq!(&longer[61..], &[0xAAu8; 9]);
    assert_eq!(read_config(&longer, false), Some(cfg));
}

#[test]
fn instructions_route_by_discriminator() {
    let mut o = owner(1, 5_000);
    let pos = [9u8; 32];
    let mut c = config_for(&o.key, Some(pos));
    let mut data = vec![94u8, 247, 51, 161, 142, 177, 235, 11];
    data.extend_from_slice(&40u16.to_le_bytes());
    data.extend_from_slice(&15u16.to_le_bytes());
    process_instruction(&PROGRAM, &mut o, &mut c, &pos, &data, 77, RENT).unwrap();
    let r = is_enabled(&PROGRAM, &o.key, &c, &pos).unwrap();
    assert_eq!((r.max_slippage_bps, r.min_yield_improvement_bps, r.created_at), (40, 15, 77));
    let disable_ix = [170u8, 206, 89, 64, 74, 71, 94, 214];
    process_instruction(&PROGRAM, &mut o, &mut c, &pos, &disable_ix, 78, RENT).unwrap();
    assert_eq!(o.lamports, 5_000);
}

#[test]
fn malformed_instructions_are_refused() {
    let mut o = owner(1, 5_000);
    let pos = [9u8; 32];
    let mut c = config_for(&o.key, Some(pos));
    let short = [94u8, 247, 51];
    assert_eq!(
        process_instruction(&PROGRAM, &mut o, &mut c, &pos, &short, 1, RENT),
        Err(ProgramError::InvalidInstructionData)
    );
    let unknown = [0u8; 12];
    assert_eq!(
        process_instruction(&PROGRAM, &mut o, &mut c, &pos, &unknown, 1, RENT),
        Err(ProgramError::InvalidInstructionData)
    );
    let no_args = [94u8, 247, 51, 161, 142, 177, 235, 11, 1];
    assert_eq!(
        process_instruction(&PROGRAM, &mut o, &mut c, &pos, &no_args, 1, RENT),
        Err(ProgramError::InvalidInstructionData)
    );
    assert!(c.data.is_empty());
}
