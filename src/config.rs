//! The rebalance-policy record and its storage layout:
//! discriminator, owner, the position id where the record is kept per position,
//! the enabled flag, both thresholds (u16, little-endian) and both timestamps
//! (i64, little-endian).
use vstd::prelude::*;
use vstd::bytes::*;

verus! {

/// Length of the discriminator that opens a stored record.
pub const DISCRIMINATOR_LEN: usize = 8;

/// Length of an identity key.
pub const KEY_LEN: usize = 32;

/// The discriminator that opens a stored record.
pub open spec fn account_discriminator() -> Seq<u8> {
    seq![111u8, 187u8, 136u8, 118u8, 41u8, 244u8, 175u8, 141u8]
}

/// A stored rebalance policy. `position_mint` is present exactly where the
/// record is kept per position rather than per owner.
#[derive(Clone, Copy, Debug, PartialEq, Eq)]
pub struct RebalanceConfig {
    pub owner: [u8; 32],
    pub position_mint: Option<[u8; 32]>,
    pub enabled: bool,
    pub max_slippage_bps: u16,
    pub min_yield_improvement_bps: u16,
    pub created_at: i64,
    pub updated_at: i64,
}

/// The record as mathematics sees it.
pub struct ConfigModel {
    pub owner: Seq<u8>,
    pub position_mint: Option<Seq<u8>>,
    pub enabled: bool,
    pub max_slippage_bps: u16,
    pub min_yield_improvement_bps: u16,
    pub created_at: i64,
    pub updated_at: i64,
}

pub open spec fn key_view(k: Option<[u8; 32]>) -> Option<Seq<u8>> {
    match k {
        Some(a) => Some(a@),
        None => None,
    }
}

impl View for RebalanceConfig {
    type V = ConfigModel;

    open spec fn view(&self) -> ConfigModel {
        ConfigModel {
            owner: self.owner@,
            position_mint: key_view(self.position_mint),
            enabled: self.enabled,
            max_slippage_bps: self.max_slippage_bps,
            min_yield_improvement_bps: self.min_yield_improvement_bps,
            created_at: self.created_at,
            updated_at: self.updated_at,
        }
    }
}

impl ConfigModel {
    /// Keys of the right length.
    pub open spec fn wf(self) -> bool {
        &&& self.owner.len() == KEY_LEN
        &&& self.position_mint matches Some(p) ==> p.len() == KEY_LEN
    }
}

/// Size of a stored record, with or without the position id.
pub open spec fn config_size(per_position: bool) -> nat {
    if per_position { 93 } else { 61 }
}

/// Offset of the enabled flag, right after the keys.
pub open spec fn flags_offset(per_position: bool) -> int {
    if per_position { 72 } else { 40 }
}

pub open spec fn i64_le_bytes(x: i64) -> Seq<u8> {
    spec_u64_to_le_bytes(x as u64)
}

pub open spec fn i64_from_le_bytes(s: Seq<u8>) -> i64 {
    spec_u64_from_le_bytes(s) as i64
}

/// The bytes of a stored record.
pub open spec fn config_bytes(m: ConfigModel) -> Seq<u8> {
    account_discriminator() + m.owner + match m.position_mint {
        Some(p) => p,
        None => Seq::empty(),
    } + seq![if m.enabled { 1u8 } else { 0u8 }] + spec_u16_to_le_bytes(m.max_slippage_bps)
        + spec_u16_to_le_bytes(m.min_yield_improvement_bps) + i64_le_bytes(m.created_at)
        + i64_le_bytes(m.updated_at)
}

/// Reads a stored record kept per position (or per owner): it is there when the
/// storage holds at least the record's size and opens with the discriminator.
/// Bytes past the record are ignored.
pub open spec fn parse_config(data: Seq<u8>, per_position: bool) -> Option<ConfigModel> {
    let f = flags_offset(per_position);
    if data.len() >= config_size(per_position) && data.subrange(0, 8) == account_discriminator() {
        Some(
            ConfigModel {
                owner: data.subrange(8, 40),
                position_mint: if per_position { Some(data.subrange(40, 72)) } else { None },
                enabled: data[f] != 0,
                max_slippage_bps: spec_u16_from_le_bytes(data.subrange(f + 1, f + 3)),
                min_yield_improvement_bps: spec_u16_from_le_bytes(data.subrange(f + 3, f + 5)),
                created_at: i64_from_le_bytes(data.subrange(f + 5, f + 13)),
                updated_at: i64_from_le_bytes(data.subrange(f + 13, f + 21)),
            },
        )
    } else {
        None
    }
}

/// A signed 64-bit value survives its little-endian bytes.
pub proof fn lemma_i64_le_round_trip(x: i64)
    ensures
        i64_le_bytes(x).len() == 8,
        i64_from_le_bytes(i64_le_bytes(x)) == x,
{
    lemma_auto_spec_u64_to_from_le_bytes();
    let u = x as u64;
    assert(spec_u64_from_le_bytes(spec_u64_to_le_bytes(u)) == u);
    assert((u as i64) == x) by (bit_vector)
        requires u == x as u64;
}

/// A record read back from its bytes is the record written, whatever follows it.
pub proof fn lemma_parse_config_bytes(m: ConfigModel, tail: Seq<u8>)
    requires
        m.wf(),
    ensures
        config_bytes(m).len() == config_size(m.position_mint is Some),
        parse_config(config_bytes(m) + tail, m.position_mint is Some) == Some(m),
{
    lemma_auto_spec_u16_to_from_le_bytes();
    lemma_i64_le_round_trip(m.created_at);
    lemma_i64_le_round_trip(m.updated_at);
    let per_position = m.position_mint is Some;
    let d = config_bytes(m) + tail;
    let f = flags_offset(per_position);
    let keys = account_discriminator() + m.owner + match m.position_mint {
        Some(p) => p,
        None => Seq::empty(),
    };
    assert(keys.len() == f);
    assert(config_bytes(m).len() == config_size(per_position));
    assert(d.subrange(0, 8) =~= account_discriminator());
    assert(d.subrange(8, 40) =~= m.owner);
    if per_position {
        assert(d.subrange(40, 72) =~= m.position_mint->Some_0);
    }
    assert(d[f] == if m.enabled { 1u8 } else { 0u8 });
    assert(d.subrange(f + 1, f + 3) =~= spec_u16_to_le_bytes(m.max_slippage_bps));
    assert(d.subrange(f + 3, f + 5) =~= spec_u16_to_le_bytes(m.min_yield_improvement_bps));
    assert(d.subrange(f + 5, f + 13) =~= i64_le_bytes(m.created_at));
    assert(d.subrange(f + 13, f + 21) =~= i64_le_bytes(m.updated_at));
    let p = parse_config(d, per_position)->Some_0;
    assert(p.position_mint == m.position_mint);
}

} // verus!

verus! {

/// Appends `s` to `v`.
fn push_all(v: &mut Vec<u8>, s: &[u8])
    ensures
        final(v)@ == old(v)@ + s@,
{
    let mut i: usize = 0;
    while i < s.len()
        invariant
            0 <= i <= s@.len(),
            v@ == old(v)@ + s@.subrange(0, i as int),
        decreases s@.len() - i,
    {
        v.push(s[i]);
        i = i + 1;
        assert(s@.subrange(0, i as int) =~= s@.subrange(0, i - 1) + seq![s@[i - 1]]);
    }
    assert(s@.subrange(0, s@.len() as int) =~= s@);
}

/// The discriminator that opens a stored record.
pub fn discriminator() -> (r: [u8; 8])
    ensures
        r@ == account_discriminator(),
{
    let r: [u8; 8] = [111, 187, 136, 118, 41, 244, 175, 141];
    assert(r@ =~= account_discriminator());
    r
}

/// The bytes of a stored record.
pub fn encode_config(c: &RebalanceConfig) -> (r: Vec<u8>)
    ensures
        r@ == config_bytes(c@),
        r@.len() == config_size(c.position_mint is Some),
{
    proof {
        lemma_parse_config_bytes(c@, Seq::empty());
    }
    let mut r: Vec<u8> = Vec::new();
    let disc = discriminator();
    push_all(&mut r, &disc);
    push_all(&mut r, &c.owner);
    match &c.position_mint {
        Some(p) => push_all(&mut r, p),
        None => {},
    }
    r.push(if c.enabled { 1u8 } else { 0u8 });
    let max = u16_to_le_bytes(c.max_slippage_bps);
    push_all(&mut r, max.as_slice());
    let min = u16_to_le_bytes(c.min_yield_improvement_bps);
    push_all(&mut r, min.as_slice());
    let created = u64_to_le_bytes(c.created_at as u64);
    push_all(&mut r, created.as_slice());
    let updated = u64_to_le_bytes(c.updated_at as u64);
    push_all(&mut r, updated.as_slice());
    assert(r@ =~= config_bytes(c@));
    r
}

/// Copies the key that starts at `start`.
fn read_key(data: &[u8], start: usize) -> (r: [u8; 32])
    requires
        start + KEY_LEN <= data@.len(),
    ensures
        r@ == data@.subrange(start as int, start + KEY_LEN),
{
    let n = data.len();
    let mut r: [u8; 32] = [0u8; 32];
    let mut i: usize = 0;
    while i < KEY_LEN
        invariant
            0 <= i <= KEY_LEN,
            start + KEY_LEN <= data@.len(),
            n == data@.len(),
            r@.len() == KEY_LEN,
            forall|j: int| 0 <= j < i ==> r@[j] == data@[start + j],
        decreases KEY_LEN - i,
    {
        r[i] = data[start + i];
        i = i + 1;
    }
    assert(r@ =~= data@.subrange(start as int, start + KEY_LEN));
    r
}

/// Copies `len` bytes from `start` into a vector.
fn read_bytes(data: &[u8], start: usize, len: usize) -> (r: Vec<u8>)
    requires
        start + len <= data@.len(),
    ensures
        r@ == data@.subrange(start as int, start + len),
{
    let n = data.len();
    let mut r: Vec<u8> = Vec::new();
    let mut i: usize = 0;
    while i < len
        invariant
            0 <= i <= len,
            start + len <= data@.len(),
            n == data@.len(),
            r@ == data@.subrange(start as int, start + i),
        decreases len - i,
    {
        r.push(data[start + i]);
        i = i + 1;
        assert(r@ =~= data@.subrange(start as int, start + i));
    }
    r
}

/// Whether `data` opens with the discriminator.
fn has_discriminator(data: &[u8]) -> (r: bool)
    requires
        data@.len() >= DISCRIMINATOR_LEN,
    ensures
        r == (data@.subrange(0, 8) == account_discriminator()),
{
    let disc = discriminator();
    let mut i: usize = 0;
    while i < DISCRIMINATOR_LEN
        invariant
            0 <= i <= DISCRIMINATOR_LEN,
            data@.len() >= DISCRIMINATOR_LEN,
            disc@ == account_discriminator(),
            forall|j: int| 0 <= j < i ==> data@[j] == disc@[j],
        decreases DISCRIMINATOR_LEN - i,
    {
        if data[i] != disc[i] {
            assert(data@.subrange(0, 8)[i as int] != account_discriminator()[i as int]);
            return false;
        }
        i = i + 1;
    }
    assert(data@.subrange(0, 8) =~= account_discriminator());
    true
}

/// Reads a stored record, kept per position or per owner.
pub fn read_config(data: &[u8], per_position: bool) -> (r: Option<RebalanceConfig>)
    ensures
        r.is_some() == parse_config(data@, per_position).is_some(),
        r matches Some(c) ==> Some(c@) == parse_config(data@, per_position),
        r matches Some(c) ==> (c.position_mint is Some) == per_position,
{
    let size: usize = if per_position { 93 } else { 61 };
    if data.len() < size || !has_discriminator(data) {
        return None;
    }
    let f: usize = if per_position { 72 } else { 40 };
    let owner = read_key(data, 8);
    let position_mint = if per_position { Some(read_key(data, 40)) } else { None };
    let max = read_bytes(data, f + 1, 2);
    let min = read_bytes(data, f + 3, 2);
    let created = read_bytes(data, f + 5, 8);
    let updated = read_bytes(data, f + 13, 8);
    let c = RebalanceConfig {
        owner,
        position_mint,
        enabled: data[f] != 0,
        max_slippage_bps: u16_from_le_bytes(max.as_slice()),
        min_yield_improvement_bps: u16_from_le_bytes(min.as_slice()),
        created_at: u64_from_le_bytes(created.as_slice()) as i64,
        updated_at: u64_from_le_bytes(updated.as_slice()) as i64,
    };
    assert(c@ == parse_config(data@, per_position)->Some_0);
    Some(c)
}

/// Writes the record over the start of `data`, leaving any bytes past it as they were.
pub fn write_config(data: &mut Vec<u8>, c: &RebalanceConfig)
    requires
        old(data)@.len() >= config_size(c.position_mint is Some),
    ensures
        final(data)@ == config_bytes(c@) + old(data)@.subrange(
            config_size(c.position_mint is Some) as int,
            old(data)@.len() as int,
        ),
{
    let bytes = encode_config(c);
    let n = bytes.len();
    let mut i: usize = 0;
    while i < n
        invariant
            0 <= i <= n,
            n == bytes@.len(),
            n <= old(data)@.len(),
            data@.len() == old(data)@.len(),
            forall|j: int| 0 <= j < i ==> data@[j] == bytes@[j],
            forall|j: int| i <= j < data@.len() ==> data@[j] == old(data)@[j],
        decreases n - i,
    {
        data.set(i, bytes[i]);
        i = i + 1;
    }
    assert(data@ =~= bytes@ + old(data)@.subrange(n as int, old(data)@.len() as int));
}

} // verus!
