//! The authorization store: one rebalance-policy record per owner, or per
//! (owner, position) pair, kept at an address derived from those keys.
//! States: absent, enabled (updated in place), and erased.
use vstd::prelude::*;
use crate::address::{address_matches, derived_address, keys_equal};
use crate::config::{
    config_bytes, config_size, key_view, parse_config, read_config, write_config, encode_config, ConfigModel,
    RebalanceConfig,
};

verus! {

/// An account as the store sees it: its address, whether it signed, its balance
/// and its storage.
pub struct AccountState {
    pub key: [u8; 32],
    pub is_signer: bool,
    pub lamports: u64,
    pub data: Vec<u8>,
}

/// Why an operation of the store refused to act.
#[derive(Clone, Copy, Debug, PartialEq, Eq)]
pub enum ProgramError {
    InvalidInstructionData,
    MissingRequiredSignature,
    InvalidSeeds,
    InvalidAccountData,
    IllegalOwner,
    ArithmeticOverflow,
    InsufficientFunds,
    AccountNotInitialized,
}

/// The seed that opens every record address.
pub open spec fn rebalance_seed() -> Seq<u8> {
    seq![114u8, 101u8, 98u8, 97u8, 108u8, 97u8, 110u8, 99u8, 101u8]
}

/// Seeds of a record address: the tag, the owner, and the position where the
/// record is kept per position.
pub open spec fn config_seeds(owner: Seq<u8>, position_mint: Option<Seq<u8>>) -> Seq<Seq<u8>> {
    match position_mint {
        Some(p) => seq![rebalance_seed(), owner, p],
        None => seq![rebalance_seed(), owner],
    }
}

/// Storage that holds no record: never written, or erased.
pub open spec fn is_vacant_spec(data: Seq<u8>) -> bool {
    forall|i: int| 0 <= i < data.len() ==> data[i] == 0
}

/// The record that `enable` leaves: a fresh one where none was stored, else the
/// stored one with new thresholds.
pub open spec fn enabled_record(
    stored: Option<ConfigModel>,
    owner: Seq<u8>,
    position_mint: Option<Seq<u8>>,
    max_slippage_bps: u16,
    min_yield_improvement_bps: u16,
    now: i64,
) -> ConfigModel {
    match stored {
        Some(s) => ConfigModel {
            enabled: true,
            max_slippage_bps,
            min_yield_improvement_bps,
            updated_at: now,
            ..s
        },
        None => ConfigModel {
            owner,
            position_mint,
            enabled: true,
            max_slippage_bps,
            min_yield_improvement_bps,
            created_at: now,
            updated_at: now,
        },
    }
}

/// The first check that `enable` fails, if any.
pub open spec fn enable_error(
    program_id: Seq<u8>,
    owner: &AccountState,
    config: &AccountState,
    position_mint: Option<Seq<u8>>,
    rent_minimum: u64,
) -> Option<ProgramError> {
    let per_position = position_mint is Some;
    let vacant = is_vacant_spec(config.data@);
    let stored = parse_config(config.data@, per_position);
    if !owner.is_signer {
        Some(ProgramError::MissingRequiredSignature)
    } else if stored matches Some(c) && c.owner != owner.key@ {
        Some(ProgramError::IllegalOwner)
    } else if derived_address(config_seeds(owner.key@, position_mint), program_id) != Some(
        config.key@,
    ) {
        Some(ProgramError::InvalidSeeds)
    } else if !vacant && stored is None {
        Some(ProgramError::InvalidAccountData)
    } else if vacant && owner.lamports < rent_minimum {
        Some(ProgramError::InsufficientFunds)
    } else if vacant && config.lamports + rent_minimum > u64::MAX {
        Some(ProgramError::ArithmeticOverflow)
    } else {
        None
    }
}

/// The first check that `disable` fails, if any.
pub open spec fn disable_error(
    program_id: Seq<u8>,
    owner: &AccountState,
    config: &AccountState,
    position_mint: Option<Seq<u8>>,
) -> Option<ProgramError> {
    let stored = parse_config(config.data@, position_mint is Some);
    if !owner.is_signer {
        Some(ProgramError::MissingRequiredSignature)
    } else if stored matches Some(c) && c.owner != owner.key@ {
        Some(ProgramError::IllegalOwner)
    } else if derived_address(config_seeds(owner.key@, position_mint), program_id) != Some(
        config.key@,
    ) {
        Some(ProgramError::InvalidSeeds)
    } else if stored is None {
        Some(ProgramError::InvalidAccountData)
    } else if owner.lamports + config.lamports > u64::MAX {
        Some(ProgramError::ArithmeticOverflow)
    } else {
        None
    }
}

/// What `enable` does: it fails exactly on the first failed check, changing
/// nothing; otherwise the storage holds the enabled record (written over the
/// start of a stored one, bytes past it kept), and where none was
/// stored the owner has paid `rent_minimum` into the record's account.
pub open spec fn enable_post(
    program_id: Seq<u8>,
    owner0: AccountState,
    config0: AccountState,
    owner1: AccountState,
    config1: AccountState,
    position_mint: Option<Seq<u8>>,
    max_slippage_bps: u16,
    min_yield_improvement_bps: u16,
    now: i64,
    rent_minimum: u64,
    r: Result<(), ProgramError>,
) -> bool {
    let vacant = is_vacant_spec(config0.data@);
    let stored = if vacant { None } else { parse_config(config0.data@, position_mint is Some) };
    let record = enabled_record(stored, owner0.key@, position_mint, max_slippage_bps,
        min_yield_improvement_bps, now);
    &&& r == match enable_error(program_id, &owner0, &config0, position_mint, rent_minimum) {
        Some(x) => Err::<(), ProgramError>(x),
        None => Ok(()),
    }
    &&& r is Err ==> owner1 == owner0 && config1 == config0
    &&& r is Ok ==> {
        &&& vacant ==> config1.data@ == config_bytes(record)
        &&& !vacant ==> config1.data@ == config_bytes(record) + config0.data@.subrange(
            config_size(position_mint is Some) as int,
            config0.data@.len() as int,
        )
        &&& parse_config(config1.data@, position_mint is Some) == Some(record)
        &&& config1.key == config0.key
        &&& config1.is_signer == config0.is_signer
        &&& owner1.key == owner0.key
        &&& owner1.is_signer == owner0.is_signer
        &&& owner1.data == owner0.data
        &&& vacant ==> owner1.lamports == owner0.lamports - rent_minimum
        &&& vacant ==> config1.lamports == config0.lamports + rent_minimum
        &&& !vacant ==> owner1.lamports == owner0.lamports
        &&& !vacant ==> config1.lamports == config0.lamports
    }
}

/// What `disable` does: it fails exactly on the first failed check, changing
/// nothing; otherwise the record's balance has gone to the owner and its
/// storage is zeroed.
pub open spec fn disable_post(
    program_id: Seq<u8>,
    owner0: AccountState,
    config0: AccountState,
    owner1: AccountState,
    config1: AccountState,
    position_mint: Option<Seq<u8>>,
    r: Result<(), ProgramError>,
) -> bool {
    &&& r == match disable_error(program_id, &owner0, &config0, position_mint) {
        Some(x) => Err::<(), ProgramError>(x),
        None => Ok(()),
    }
    &&& r is Err ==> owner1 == owner0 && config1 == config0
    &&& r is Ok ==> {
        &&& owner1.lamports == owner0.lamports + config0.lamports
        &&& config1.lamports == 0
        &&& config1.data@.len() == config0.data@.len()
        &&& is_vacant_spec(config1.data@)
        &&& config1.key == config0.key
        &&& config1.is_signer == config0.is_signer
        &&& owner1.key == owner0.key
        &&& owner1.is_signer == owner0.is_signer
        &&& owner1.data == owner0.data
    }
}

/// What `is_enabled` reports.
pub open spec fn lookup_result(
    program_id: Seq<u8>,
    owner: Seq<u8>,
    config: &AccountState,
    position_mint: Option<Seq<u8>>,
) -> Result<ConfigModel, ProgramError> {
    let stored = parse_config(config.data@, position_mint is Some);
    if stored matches Some(c) && c.owner != owner {
        Err(ProgramError::IllegalOwner)
    } else if derived_address(config_seeds(owner, position_mint), program_id) != Some(config.key@) {
        Err(ProgramError::InvalidSeeds)
    } else if stored is None {
        Err(ProgramError::AccountNotInitialized)
    } else {
        Ok(stored->Some_0)
    }
}

/// The bytes of a key, as a seed.
pub(crate) fn key_seed(k: &[u8; 32]) -> (r: Vec<u8>)
    ensures
        r@ == k@,
{
    let mut r: Vec<u8> = Vec::new();
    let mut i: usize = 0;
    while i < 32
        invariant
            0 <= i <= 32,
            k@.len() == 32,
            r@ == k@.subrange(0, i as int),
        decreases 32 - i,
    {
        r.push(k[i]);
        i = i + 1;
        assert(r@ =~= k@.subrange(0, i as int));
    }
    assert(k@.subrange(0, 32) =~= k@);
    r
}

/// Seeds of the record address of `owner`, per position where one is given.
pub fn seeds_for(owner: &[u8; 32], position_mint: &Option<[u8; 32]>) -> (r: Vec<Vec<u8>>)
    ensures
        r.deep_view() == config_seeds(owner@, key_view(*position_mint)),
{
    let tag: Vec<u8> = vec![114u8, 101u8, 98u8, 97u8, 108u8, 97u8, 110u8, 99u8, 101u8];
    assert(tag@ =~= rebalance_seed());
    let mut r: Vec<Vec<u8>> = Vec::new();
    r.push(tag);
    r.push(key_seed(owner));
    match position_mint {
        Some(p) => {
            r.push(key_seed(p));
        },
        None => {},
    }
    assert forall|i: int| 0 <= i < r@.len() implies #[trigger] r@[i].deep_view() == r@[i]@ by {
        assert(r@[i].deep_view() =~= r@[i]@);
    }
    assert(r.deep_view() =~= config_seeds(owner@, key_view(*position_mint)));
    r
}

/// Whether the storage holds no record.
pub fn is_vacant(data: &Vec<u8>) -> (r: bool)
    ensures
        r == is_vacant_spec(data@),
{
    let mut i: usize = 0;
    while i < data.len()
        invariant
            0 <= i <= data@.len(),
            forall|j: int| 0 <= j < i ==> data@[j] == 0,
        decreases data@.len() - i,
    {
        if data[i] != 0 {
            return false;
        }
        i = i + 1;
    }
    true
}

/// Storage that holds no record cannot be read as one.
proof fn lemma_vacant_holds_no_record(data: Seq<u8>, per_position: bool)
    ensures
        is_vacant_spec(data) ==> parse_config(data, per_position) is None,
{
    if is_vacant_spec(data) && data.len() >= 8 {
        assert(data.subrange(0, 8)[0] == 0u8);
        assert(crate::config::account_discriminator()[0] == 111u8);
    }
}

/// Enables rebalancing for `owner`, per position where one is given. Creates
/// the record where none is stored, paying `rent_minimum` from the owner into
/// the record's account; otherwise keeps owner, position and creation time and
/// sets new thresholds. A failure changes nothing.
pub fn enable(
    program_id: &[u8; 32],
    owner: &mut AccountState,
    config: &mut AccountState,
    position_mint: Option<[u8; 32]>,
    max_slippage_bps: u16,
    min_yield_improvement_bps: u16,
    now: i64,
    rent_minimum: u64,
) -> (r: Result<(), ProgramError>)
    ensures
        enable_post(program_id@, *old(owner), *old(config), *final(owner), *final(config),
            key_view(position_mint), max_slippage_bps, min_yield_improvement_bps, now, rent_minimum, r),
{
    if !owner.is_signer {
        return Err(ProgramError::MissingRequiredSignature);
    }
    let per_position = position_mint.is_some();
    let vacant = is_vacant(&config.data);
    let stored = read_config(config.data.as_slice(), per_position);
    proof {
        lemma_vacant_holds_no_record(config.data@, per_position);
    }
    match &stored {
        Some(c) => {
            if !keys_equal(&c.owner, &owner.key) {
                return Err(ProgramError::IllegalOwner);
            }
        },
        None => {},
    }
    let seeds = seeds_for(&owner.key, &position_mint);
    if !address_matches(&config.key, &seeds, program_id) {
        return Err(ProgramError::InvalidSeeds);
    }
    match stored {
        Some(s) => {
            let record = RebalanceConfig {
                owner: s.owner,
                position_mint: s.position_mint,
                enabled: true,
                max_slippage_bps,
                min_yield_improvement_bps,
                created_at: s.created_at,
                updated_at: now,
            };
            proof {
                crate::config::lemma_parse_config_bytes(
                    record@,
                    config.data@.subrange(config_size(per_position) as int, config.data@.len() as int),
                );
            }
            write_config(&mut config.data, &record);
        },
        None => {
            if !vacant {
                return Err(ProgramError::InvalidAccountData);
            }
            if owner.lamports < rent_minimum {
                return Err(ProgramError::InsufficientFunds);
            }
            let funded = match config.lamports.checked_add(rent_minimum) {
                Some(l) => l,
                None => return Err(ProgramError::ArithmeticOverflow),
            };
            owner.lamports = owner.lamports - rent_minimum;
            config.lamports = funded;
            let record = RebalanceConfig {
                owner: owner.key,
                position_mint,
                enabled: true,
                max_slippage_bps,
                min_yield_improvement_bps,
                created_at: now,
                updated_at: now,
            };
            proof {
                crate::config::lemma_parse_config_bytes(record@, Seq::empty());
                assert(config_bytes(record@) + Seq::<u8>::empty() =~= config_bytes(record@));
            }
            config.data = encode_config(&record);
        },
    }
    Ok(())
}

} // verus!

verus! {

/// Erases the record of `owner`, per position where one is given: only the
/// stored owner may. The record's balance goes back to the owner and its
/// storage is zeroed. A failure changes nothing.
pub fn disable(
    program_id: &[u8; 32],
    owner: &mut AccountState,
    config: &mut AccountState,
    position_mint: Option<[u8; 32]>,
) -> (r: Result<(), ProgramError>)
    ensures
        disable_post(program_id@, *old(owner), *old(config), *final(owner), *final(config),
            key_view(position_mint), r),
{
    if !owner.is_signer {
        return Err(ProgramError::MissingRequiredSignature);
    }
    let stored = read_config(config.data.as_slice(), position_mint.is_some());
    match &stored {
        Some(c) => {
            if !keys_equal(&c.owner, &owner.key) {
                return Err(ProgramError::IllegalOwner);
            }
        },
        None => {},
    }
    let seeds = seeds_for(&owner.key, &position_mint);
    if !address_matches(&config.key, &seeds, program_id) {
        return Err(ProgramError::InvalidSeeds);
    }
    if stored.is_none() {
        return Err(ProgramError::InvalidAccountData);
    }
    let refunded = match owner.lamports.checked_add(config.lamports) {
        Some(l) => l,
        None => return Err(ProgramError::ArithmeticOverflow),
    };
    owner.lamports = refunded;
    config.lamports = 0;
    let n = config.data.len();
    let mut i: usize = 0;
    while i < n
        invariant
            0 <= i <= n,
            n == config.data@.len(),
            n == old(config).data@.len(),
            config.key == old(config).key,
            config.is_signer == old(config).is_signer,
            config.lamports == 0,
            owner.lamports == old(owner).lamports + old(config).lamports,
            owner.key == old(owner).key,
            owner.is_signer == old(owner).is_signer,
            owner.data == old(owner).data,
            forall|j: int| 0 <= j < i ==> config.data@[j] == 0,
        decreases n - i,
    {
        config.data.set(i, 0);
        i = i + 1;
    }
    Ok(())
}

/// Reads the record of `owner`, per position where one is given. Changes nothing.
pub fn lookup(
    program_id: &[u8; 32],
    owner: &[u8; 32],
    config: &AccountState,
    position_mint: Option<[u8; 32]>,
) -> (r: Result<RebalanceConfig, ProgramError>)
    ensures
        match lookup_result(program_id@, owner@, config, key_view(position_mint)) {
            Ok(m) => r matches Ok(c) && c@ == m,
            Err(e) => r == Err::<RebalanceConfig, ProgramError>(e),
        },
{
    let stored = read_config(config.data.as_slice(), position_mint.is_some());
    match &stored {
        Some(c) => {
            if !keys_equal(&c.owner, owner) {
                return Err(ProgramError::IllegalOwner);
            }
        },
        None => {},
    }
    let seeds = seeds_for(owner, &position_mint);
    if !address_matches(&config.key, &seeds, program_id) {
        return Err(ProgramError::InvalidSeeds);
    }
    match stored {
        Some(c) => Ok(c),
        None => Err(ProgramError::AccountNotInitialized),
    }
}

/// Enables rebalancing for one position of `owner`.
pub fn enable_rebalance(
    program_id: &[u8; 32],
    owner: &mut AccountState,
    rebalance_config: &mut AccountState,
    position_mint: &[u8; 32],
    max_slippage_bps: u16,
    min_yield_improvement_bps: u16,
    now: i64,
    rent_minimum: u64,
) -> (r: Result<(), ProgramError>)
    ensures
        enable_post(program_id@, *old(owner), *old(rebalance_config), *final(owner),
            *final(rebalance_config), Some(position_mint@), max_slippage_bps,
            min_yield_improvement_bps, now, rent_minimum, r),
{
    enable(
        program_id,
        owner,
        rebalance_config,
        Some(*position_mint),
        max_slippage_bps,
        min_yield_improvement_bps,
        now,
        rent_minimum,
    )
}

/// Erases the record of one position of `owner`, refunding its balance.
pub fn disable_rebalance(
    program_id: &[u8; 32],
    owner: &mut AccountState,
    rebalance_config: &mut AccountState,
    position_mint: &[u8; 32],
) -> (r: Result<(), ProgramError>)
    ensures
        disable_post(program_id@, *old(owner), *old(rebalance_config), *final(owner),
            *final(rebalance_config), Some(position_mint@), r),
{
    disable(program_id, owner, rebalance_config, Some(*position_mint))
}

/// Reads the record of one position of `owner`.
pub fn is_enabled(
    program_id: &[u8; 32],
    owner: &[u8; 32],
    rebalance_config: &AccountState,
    position_mint: &[u8; 32],
) -> (r: Result<RebalanceConfig, ProgramError>)
    ensures
        match lookup_result(program_id@, owner@, rebalance_config, Some(position_mint@)) {
            Ok(m) => r matches Ok(c) && c@ == m,
            Err(e) => r == Err::<RebalanceConfig, ProgramError>(e),
        },
{
    lookup(program_id, owner, rebalance_config, Some(*position_mint))
}

/// Re-enabling a stored record keeps its owner, position and creation time;
/// only the thresholds, the flag and the update time change.
pub proof fn lemma_reenable_preserves_identity(
    stored: ConfigModel,
    owner: Seq<u8>,
    max_slippage_bps: u16,
    min_yield_improvement_bps: u16,
    now: i64,
)
    requires
        stored.wf(),
    ensures
        ({
            let m = enabled_record(Some(stored), owner, stored.position_mint, max_slippage_bps,
                min_yield_improvement_bps, now);
            &&& parse_config(config_bytes(m), stored.position_mint is Some) == Some(m)
            &&& m.owner == stored.owner
            &&& m.position_mint == stored.position_mint
            &&& m.created_at == stored.created_at
            &&& m.enabled
            &&& m.max_slippage_bps == max_slippage_bps
            &&& m.min_yield_improvement_bps == min_yield_improvement_bps
            &&& m.updated_at == now
        }),
{
    let m = enabled_record(Some(stored), owner, stored.position_mint, max_slippage_bps,
        min_yield_improvement_bps, now);
    crate::config::lemma_parse_config_bytes(m, Seq::empty());
    assert(config_bytes(m) + Seq::<u8>::empty() =~= config_bytes(m));
}

/// A signer other than the stored owner can neither update nor erase the
/// record: both fail with an ownership error (and a failure changes nothing).
pub proof fn lemma_non_owner_rejected(
    program_id: Seq<u8>,
    signer: &AccountState,
    config: &AccountState,
    position_mint: Option<Seq<u8>>,
    rent_minimum: u64,
)
    requires
        signer.is_signer,
        parse_config(config.data@, position_mint is Some) matches Some(s) && s.owner != signer.key@,
    ensures
        enable_error(program_id, signer, config, position_mint, rent_minimum) == Some(ProgramError::IllegalOwner),
        disable_error(program_id, signer, config, position_mint) == Some(ProgramError::IllegalOwner),
{
    let data = config.data@;
    assert(data.subrange(0, 8)[0] == 111u8);
    assert(data[0] == 111u8);
    assert(!is_vacant_spec(data));
}

/// Once its owner has erased a record, the storage is zeroed and a lookup of
/// the same record reports it absent.
pub proof fn lemma_erased_reads_absent(
    program_id: Seq<u8>,
    owner0: AccountState,
    config0: AccountState,
    owner1: AccountState,
    config1: AccountState,
    position_mint: Option<Seq<u8>>,
)
    requires
        disable_post(program_id, owner0, config0, owner1, config1, position_mint, Ok(())),
    ensures
        is_vacant_spec(config1.data@),
        parse_config(config1.data@, position_mint is Some) is None,
        lookup_result(program_id, owner0.key@, &config1, position_mint) == Err::<ConfigModel, ProgramError>(
            ProgramError::AccountNotInitialized,
        ),
{
    lemma_vacant_holds_no_record(config1.data@, position_mint is Some);
}

/// The seed material of a record address (the seeds in a row, as they are
/// hashed) tells identities apart: distinct (owner, position) keys, of either
/// granularity, never share it.
pub proof fn lemma_distinct_identities_distinct_seeds(
    owner_a: Seq<u8>,
    position_a: Option<Seq<u8>>,
    owner_b: Seq<u8>,
    position_b: Option<Seq<u8>>,
)
    requires
        owner_a.len() == 32,
        owner_b.len() == 32,
        position_a matches Some(p) ==> p.len() == 32,
        position_b matches Some(p) ==> p.len() == 32,
        owner_a != owner_b || position_a != position_b,
    ensures
        config_seeds(owner_a, position_a).flatten() != config_seeds(owner_b, position_b).flatten(),
{
    reveal_with_fuel(Seq::flatten, 4);
    let ma = config_seeds(owner_a, position_a).flatten();
    let mb = config_seeds(owner_b, position_b).flatten();
    let tail_a = match position_a { Some(p) => p, None => Seq::empty() };
    let tail_b = match position_b { Some(p) => p, None => Seq::empty() };
    assert(config_seeds(owner_a, position_a).drop_first().drop_first().flatten() =~= tail_a) by {
        if position_a is Some {
            assert(config_seeds(owner_a, position_a).drop_first().drop_first().drop_first().flatten() =~= Seq::<u8>::empty());
        }
    }
    assert(config_seeds(owner_b, position_b).drop_first().drop_first().flatten() =~= tail_b) by {
        if position_b is Some {
            assert(config_seeds(owner_b, position_b).drop_first().drop_first().drop_first().flatten() =~= Seq::<u8>::empty());
        }
    }
    assert(ma =~= rebalance_seed() + (owner_a + tail_a));
    assert(mb =~= rebalance_seed() + (owner_b + tail_b));
    if ma == mb {
        assert(owner_a =~= ma.subrange(9, 41));
        assert(owner_b =~= mb.subrange(9, 41));
        assert(ma.len() == mb.len());
        assert(tail_a =~= ma.subrange(41, ma.len() as int));
        assert(tail_b =~= mb.subrange(41, mb.len() as int));
        assert(tail_a.len() == tail_b.len());
        assert(position_a == position_b);
    }
}

/// Storage that is not at the address derived for the acting owner is refused:
/// a record addressed for one identity cannot be enabled for another.
pub proof fn lemma_foreign_address_rejected(
    program_id: Seq<u8>,
    owner: &AccountState,
    config: &AccountState,
    position_mint: Option<Seq<u8>>,
    rent_minimum: u64,
)
    requires
        derived_address(config_seeds(owner.key@, position_mint), program_id) != Some(config.key@),
    ensures
        enable_error(program_id, owner, config, position_mint, rent_minimum) is Some,
        disable_error(program_id, owner, config, position_mint) is Some,
        lookup_result(program_id, owner.key@, config, position_mint) is Err,
{
}

} // verus!
