//! Circuit registry, computation dispatcher and output verifier.
//! A pending computation is keyed by its circuit and a caller-chosen offset;
//! at most one unresolved request holds a key at a time.
use vstd::prelude::*;
use vstd::bytes::{spec_u32_to_le_bytes, spec_u64_to_le_bytes, u32_to_le_bytes, u64_to_le_bytes};
use crate::address::{address_matches, derived_address};
use crate::authorization::key_seed;
use crate::encoder::{Ciphertext, EncryptedArgumentBundle};
use crate::privacy::ErrorCode;

verus! {

/// The identifier of the circuit named `name`.
pub uninterp spec fn comp_def_offset_of(name: Seq<char>) -> u32;

/// Relies on arcium_anchor's `comp_def_offset`: the identifier depends on the
/// circuit's name alone.
#[verifier::external_body]
fn comp_def_offset(name: &str) -> (r: u32)
    ensures
        r == comp_def_offset_of(name@),
{
    arcium_anchor::comp_def_offset(name)
}

/// The circuits that the program runs.
#[derive(Clone, Copy, Debug, PartialEq, Eq, Structural)]
pub enum Circuit {
    EncryptedDeposit,
    EncryptedRebalance,
    ViewPosition,
}

impl Circuit {
    pub open spec fn name_spec(self) -> Seq<char> {
        match self {
            Circuit::EncryptedDeposit => "encrypted_deposit"@,
            Circuit::EncryptedRebalance => "encrypted_rebalance"@,
            Circuit::ViewPosition => "view_position"@,
        }
    }

    /// Ciphertext blocks that a request carries, and that a result returns.
    pub open spec fn blocks_spec(self) -> nat {
        match self {
            Circuit::EncryptedRebalance => 4,
            _ => 3,
        }
    }

    pub open spec fn id_spec(self) -> u32 {
        comp_def_offset_of(self.name_spec())
    }

    /// The circuit's name.
    pub fn name(&self) -> (r: &'static str)
        ensures
            r@ == self.name_spec(),
    {
        match self {
            Circuit::EncryptedDeposit => "encrypted_deposit",
            Circuit::EncryptedRebalance => "encrypted_rebalance",
            Circuit::ViewPosition => "view_position",
        }
    }

    /// Number of ciphertext blocks in a request for this circuit.
    pub fn input_blocks(&self) -> (r: usize)
        ensures
            r == self.blocks_spec(),
    {
        match self {
            Circuit::EncryptedRebalance => 4,
            _ => 3,
        }
    }

    /// Number of ciphertext blocks in this circuit's result.
    pub fn output_blocks(&self) -> (r: usize)
        ensures
            r == self.blocks_spec(),
    {
        self.input_blocks()
    }

    /// The circuit's identifier, derived from its name; it routes requests and
    /// addresses the circuit's definition.
    pub fn circuit_id(&self) -> (r: u32)
        ensures
            r == self.id_spec(),
    {
        comp_def_offset(self.name())
    }
}

/// A registered circuit definition.
#[derive(Clone, Copy, Debug)]
pub struct ComputationDefinition {
    pub circuit_id: u32,
    pub circuit: Circuit,
}

/// The registered definitions, at most one per identifier.
pub struct Registry {
    pub definitions: Vec<ComputationDefinition>,
}

impl Registry {
    pub open spec fn ids(&self) -> Seq<u32> {
        self.definitions@.map_values(|d: ComputationDefinition| d.circuit_id)
    }

    pub open spec fn registered(&self, id: u32) -> bool {
        self.ids().contains(id)
    }

    /// No identifier is registered twice.
    pub open spec fn wf(&self) -> bool {
        self.ids().no_duplicates()
    }

    /// An empty registry.
    pub fn new() -> (r: Registry)
        ensures
            r.ids() == Seq::<u32>::empty(),
            r.wf(),
    {
        let r = Registry { definitions: Vec::new() };
        assert(r.ids() =~= Seq::<u32>::empty());
        r
    }

    /// Whether `id` is registered.
    pub fn is_registered(&self, id: u32) -> (r: bool)
        ensures
            r == self.registered(id),
    {
        let mut i: usize = 0;
        while i < self.definitions.len()
            invariant
                0 <= i <= self.definitions@.len(),
                forall|j: int| 0 <= j < i ==> self.ids()[j] != id,
            decreases self.definitions@.len() - i,
        {
            if self.definitions[i].circuit_id == id {
                assert(self.ids()[i as int] == id);
                return true;
            }
            i = i + 1;
        }
        false
    }

    /// Registers the definition of `circuit`, once: a second registration of
    /// the same identifier fails and changes nothing.
    pub fn register(&mut self, circuit: Circuit) -> (r: Result<u32, ErrorCode>)
        requires
            old(self).wf(),
        ensures
            final(self).wf(),
            old(self).registered(circuit.id_spec()) ==> r == Err::<u32, ErrorCode>(
                ErrorCode::AlreadyRegistered,
            ) && final(self).definitions@ == old(self).definitions@,
            !old(self).registered(circuit.id_spec()) ==> r == Ok::<u32, ErrorCode>(circuit.id_spec())
                && final(self).definitions@ == old(self).definitions@.push(
                ComputationDefinition { circuit_id: circuit.id_spec(), circuit },
            ),
    {
        let id = circuit.circuit_id();
        if self.is_registered(id) {
            return Err(ErrorCode::AlreadyRegistered);
        }
        self.definitions.push(ComputationDefinition { circuit_id: id, circuit });
        assert(self.ids() =~= old(self).ids().push(id));
        Ok(id)
    }
}

} // verus!

verus! {

/// Id of the secure-computation network's program, under which its storage
/// addresses are derived.
pub open spec fn arcium_program_id() -> Seq<u8> {
    seq![
        146u8, 111u8, 9u8, 170u8, 109u8, 72u8, 125u8, 226u8, 216u8, 140u8, 55u8, 106u8, 22u8, 29u8,
        7u8, 127u8, 176u8, 129u8, 11u8, 19u8, 35u8, 107u8, 124u8, 118u8, 71u8, 160u8, 112u8, 40u8,
        3u8, 250u8, 93u8, 137u8,
    ]
}

/// Id of this program, which the network knows as its execution environment.
pub open spec fn mxe_program_id() -> Seq<u8> {
    seq![
        175u8, 213u8, 251u8, 86u8, 190u8, 202u8, 227u8, 171u8, 247u8, 160u8, 135u8, 26u8, 92u8,
        131u8, 93u8, 194u8, 97u8, 104u8, 101u8, 94u8, 164u8, 14u8, 126u8, 183u8, 139u8, 114u8,
        170u8, 247u8, 32u8, 185u8, 130u8, 164u8,
    ]
}

/// Id of the secure-computation network's program.
pub fn arcium_program_id_bytes() -> (r: [u8; 32])
    ensures
        r@ == arcium_program_id(),
{
    let r: [u8; 32] = [
        146, 111, 9, 170, 109, 72, 125, 226, 216, 140, 55, 106, 22, 29, 7, 127, 176, 129, 11, 19,
        35, 107, 124, 118, 71, 160, 112, 40, 3, 250, 93, 137,
    ];
    assert(r@ =~= arcium_program_id());
    r
}

/// Id of this program.
pub fn mxe_program_id_bytes() -> (r: [u8; 32])
    ensures
        r@ == mxe_program_id(),
{
    let r: [u8; 32] = [
        175, 213, 251, 86, 190, 202, 227, 171, 247, 160, 135, 26, 92, 131, 93, 194, 97, 104, 101,
        94, 164, 14, 126, 183, 139, 114, 170, 247, 32, 185, 130, 164,
    ];
    assert(r@ =~= mxe_program_id());
    r
}

/// The ASCII bytes of `s`.
pub open spec fn ascii(s: Seq<char>) -> Seq<u8> {
    s.map_values(|c: char| c as u8)
}

/// Seeds of the execution environment's account.
pub open spec fn mxe_seeds() -> Seq<Seq<u8>> {
    seq![ascii("MXEAccount"@), mxe_program_id()]
}

/// Seeds of the cluster's request queue.
pub open spec fn mempool_seeds(cluster: u32) -> Seq<Seq<u8>> {
    seq![ascii("Mempool"@), spec_u32_to_le_bytes(cluster)]
}

/// Seeds of the cluster's executing pool.
pub open spec fn execpool_seeds(cluster: u32) -> Seq<Seq<u8>> {
    seq![ascii("Execpool"@), spec_u32_to_le_bytes(cluster)]
}

/// Seeds of the cluster's account.
pub open spec fn cluster_seeds(cluster: u32) -> Seq<Seq<u8>> {
    seq![ascii("Cluster"@), spec_u32_to_le_bytes(cluster)]
}

/// Seeds of the address of the computation at `offset` on `cluster`.
pub open spec fn computation_seeds(cluster: u32, offset: u64) -> Seq<Seq<u8>> {
    seq![ascii("ComputationAccount"@), spec_u32_to_le_bytes(cluster), spec_u64_to_le_bytes(offset)]
}

/// Seeds of the definition of the circuit `circuit_id`.
pub open spec fn comp_def_seeds(circuit_id: u32) -> Seq<Seq<u8>> {
    seq![ascii("ComputationDefinitionAccount"@), mxe_program_id(), spec_u32_to_le_bytes(circuit_id)]
}

/// A list of seeds.
fn seed_list(first: Vec<u8>, second: Vec<u8>, third: Option<Vec<u8>>) -> (r: Vec<Vec<u8>>)
    ensures
        r.deep_view() == match third {
            Some(t) => seq![first@, second@, t@],
            None => seq![first@, second@],
        },
{
    let mut r: Vec<Vec<u8>> = Vec::new();
    let ghost first_v = first@;
    let ghost second_v = second@;
    r.push(first);
    r.push(second);
    match third {
        Some(t) => {
            let ghost third_v = t@;
            r.push(t);
            assert forall|i: int| 0 <= i < r@.len() implies #[trigger] r@[i].deep_view() == r@[i]@ by {
                assert(r@[i].deep_view() =~= r@[i]@);
            }
            assert(r.deep_view() =~= seq![first_v, second_v, third_v]);
        },
        None => {
            assert forall|i: int| 0 <= i < r@.len() implies #[trigger] r@[i].deep_view() == r@[i]@ by {
                assert(r@[i].deep_view() =~= r@[i]@);
            }
            assert(r.deep_view() =~= seq![first_v, second_v]);
        },
    }
    r
}

/// Seeds of the execution environment's account.
pub fn mxe_seeds_for() -> (r: Vec<Vec<u8>>)
    ensures
        r.deep_view() == mxe_seeds(),
{
    let tag: Vec<u8> = vec![77u8, 88, 69, 65, 99, 99, 111, 117, 110, 116];
    proof {
        reveal_strlit("MXEAccount");
        assert(tag@ =~= ascii("MXEAccount"@));
    }
    seed_list(tag, key_seed(&mxe_program_id_bytes()), None)
}

/// Seeds of the cluster's request queue.
pub fn mempool_seeds_for(cluster: u32) -> (r: Vec<Vec<u8>>)
    ensures
        r.deep_view() == mempool_seeds(cluster),
{
    let tag: Vec<u8> = vec![77u8, 101, 109, 112, 111, 111, 108];
    proof {
        reveal_strlit("Mempool");
        assert(tag@ =~= ascii("Mempool"@));
    }
    seed_list(tag, u32_to_le_bytes(cluster), None)
}

/// Seeds of the cluster's executing pool.
pub fn execpool_seeds_for(cluster: u32) -> (r: Vec<Vec<u8>>)
    ensures
        r.deep_view() == execpool_seeds(cluster),
{
    let tag: Vec<u8> = vec![69u8, 120, 101, 99, 112, 111, 111, 108];
    proof {
        reveal_strlit("Execpool");
        assert(tag@ =~= ascii("Execpool"@));
    }
    seed_list(tag, u32_to_le_bytes(cluster), None)
}

/// Seeds of the cluster's account.
pub fn cluster_seeds_for(cluster: u32) -> (r: Vec<Vec<u8>>)
    ensures
        r.deep_view() == cluster_seeds(cluster),
{
    let tag: Vec<u8> = vec![67u8, 108, 117, 115, 116, 101, 114];
    proof {
        reveal_strlit("Cluster");
        assert(tag@ =~= ascii("Cluster"@));
    }
    seed_list(tag, u32_to_le_bytes(cluster), None)
}

/// Seeds of the address of the computation at `offset` on `cluster`.
pub fn computation_seeds_for(cluster: u32, offset: u64) -> (r: Vec<Vec<u8>>)
    ensures
        r.deep_view() == computation_seeds(cluster, offset),
{
    let tag: Vec<u8> = vec![
        67u8, 111, 109, 112, 117, 116, 97, 116, 105, 111, 110, 65, 99, 99, 111, 117, 110, 116,
    ];
    proof {
        reveal_strlit("ComputationAccount");
        assert(tag@ =~= ascii("ComputationAccount"@));
    }
    seed_list(tag, u32_to_le_bytes(cluster), Some(u64_to_le_bytes(offset)))
}

/// Seeds of the definition of the circuit `circuit_id`.
pub fn comp_def_seeds_for(circuit_id: u32) -> (r: Vec<Vec<u8>>)
    ensures
        r.deep_view() == comp_def_seeds(circuit_id),
{
    let tag: Vec<u8> = vec![
        67u8, 111, 109, 112, 117, 116, 97, 116, 105, 111, 110, 68, 101, 102, 105, 110, 105, 116,
        105, 111, 110, 65, 99, 99, 111, 117, 110, 116,
    ];
    proof {
        reveal_strlit("ComputationDefinitionAccount");
        assert(tag@ =~= ascii("ComputationDefinitionAccount"@));
    }
    seed_list(tag, key_seed(&mxe_program_id_bytes()), Some(u32_to_le_bytes(circuit_id)))
}

/// The accounts that a request names: the payer, who requests it; the
/// execution environment's account and the cluster it assigns, if any; and
/// the storage supplied for the network's intake structures, the computation
/// and the circuit's definition. Each must be at its derived address.
#[derive(Clone, Copy, Debug)]
pub struct QueueAccounts {
    pub payer: [u8; 32],
    pub mxe_account: [u8; 32],
    pub cluster: Option<u32>,
    pub mempool_account: [u8; 32],
    pub executing_pool: [u8; 32],
    pub computation_account: [u8; 32],
    pub comp_def_account: [u8; 32],
    pub cluster_account: [u8; 32],
}

/// Whether `supplied` is the address derived from `seeds` under the network's program.
pub open spec fn at_address(supplied: [u8; 32], seeds: Seq<Seq<u8>>) -> bool {
    derived_address(seeds, arcium_program_id()) == Some(supplied@)
}

/// A request waiting for the cluster's result.
#[derive(Debug)]
pub struct PendingComputation {
    pub circuit_id: u32,
    pub computation_offset: u64,
    pub requester: [u8; 32],
    pub arguments: EncryptedArgumentBundle,
    /// The circuit whose callback receives the result.
    pub callback: Circuit,
    pub priority: u64,
    pub flags: u64,
}

/// A result as the cluster hands it back: the request it answers, the
/// ciphertext blocks and their nonce, all covered by the cluster's signature.
#[derive(Clone, Debug)]
pub struct SignedComputationOutput {
    pub circuit_id: u32,
    pub computation_offset: u64,
    pub ciphertexts: Vec<Ciphertext>,
    pub nonce: u128,
}

/// A verified result.
#[derive(Clone, Debug)]
pub struct DecodedOutput {
    pub ciphertexts: Vec<Ciphertext>,
    pub nonce: u128,
}

/// Whether `p` holds the key (`id`, `offset`).
pub open spec fn holds(p: PendingComputation, id: u32, offset: u64) -> bool {
    p.circuit_id == id && p.computation_offset == offset
}

/// Whether an unresolved request holds the key (`id`, `offset`).
pub open spec fn occupied(pending: Seq<PendingComputation>, id: u32, offset: u64) -> bool {
    exists|i: int| 0 <= i < pending.len() && holds(#[trigger] pending[i], id, offset)
}

/// A result is accepted when its signature verified, it answers exactly this
/// request, and it has the circuit's number of blocks.
pub open spec fn output_accepted(
    pending: PendingComputation,
    output: SignedComputationOutput,
    signature_valid: bool,
    blocks: nat,
) -> bool {
    &&& signature_valid
    &&& output.circuit_id == pending.circuit_id
    &&& output.computation_offset == pending.computation_offset
    &&& output.ciphertexts@.len() == blocks
}

/// The first check that a request fails, if any.
pub open spec fn queue_error(
    registry: &Registry,
    pending: Seq<PendingComputation>,
    circuit: Circuit,
    offset: u64,
    blocks: nat,
    accounts: QueueAccounts,
) -> Option<ErrorCode> {
    let c = accounts.cluster->Some_0;
    if !at_address(accounts.mxe_account, mxe_seeds()) {
        Some(ErrorCode::InvalidAddress)
    } else if accounts.cluster is None {
        Some(ErrorCode::ClusterNotSet)
    } else if !at_address(accounts.mempool_account, mempool_seeds(c)) || !at_address(
        accounts.executing_pool,
        execpool_seeds(c),
    ) || !at_address(accounts.computation_account, computation_seeds(c, offset)) || !at_address(
        accounts.comp_def_account,
        comp_def_seeds(circuit.id_spec()),
    ) || !at_address(accounts.cluster_account, cluster_seeds(c)) {
        Some(ErrorCode::InvalidAddress)
    } else if !registry.registered(circuit.id_spec()) {
        Some(ErrorCode::UnknownCircuit)
    } else if blocks != circuit.blocks_spec() {
        Some(ErrorCode::WrongArgumentCount)
    } else if occupied(pending, circuit.id_spec(), offset) {
        Some(ErrorCode::ComputationOccupied)
    } else {
        None
    }
}

/// Checks a result against the request it claims to answer. `signature_valid`
/// is the verdict of the network's signature check on the whole output, its
/// circuit and offset included; the binding to this request is checked here.
pub fn verify_output(
    pending: &PendingComputation,
    output: &SignedComputationOutput,
    signature_valid: bool,
    blocks: usize,
) -> (r: Result<DecodedOutput, ErrorCode>)
    ensures
        r is Ok == output_accepted(*pending, *output, signature_valid, blocks as nat),
        r is Err ==> r == Err::<DecodedOutput, ErrorCode>(ErrorCode::AbortedComputation),
        r matches Ok(d) ==> d.ciphertexts@ == output.ciphertexts@ && d.nonce == output.nonce,
{
    if !signature_valid || output.circuit_id != pending.circuit_id
        || output.computation_offset != pending.computation_offset
        || output.ciphertexts.len() != blocks {
        return Err(ErrorCode::AbortedComputation);
    }
    let mut ciphertexts: Vec<Ciphertext> = Vec::new();
    let mut i: usize = 0;
    while i < output.ciphertexts.len()
        invariant
            0 <= i <= output.ciphertexts@.len(),
            ciphertexts@ == output.ciphertexts@.subrange(0, i as int),
        decreases output.ciphertexts@.len() - i,
    {
        ciphertexts.push(output.ciphertexts[i]);
        i = i + 1;
        assert(ciphertexts@ =~= output.ciphertexts@.subrange(0, i as int));
    }
    assert(output.ciphertexts@.subrange(0, output.ciphertexts@.len() as int) =~= output.ciphertexts@);
    Ok(DecodedOutput { ciphertexts, nonce: output.nonce })
}

/// The error of a result, if it failed.
pub open spec fn result_error<T>(r: Result<T, ErrorCode>) -> Option<ErrorCode> {
    match r {
        Ok(_) => None,
        Err(e) => Some(e),
    }
}

/// What resolving a request does: without a request holding the key it fails
/// as not pending and changes nothing; otherwise it consumes that request and
/// succeeds exactly when the result is accepted, failing as aborted otherwise.
pub open spec fn resolve_post(
    before: Seq<PendingComputation>,
    after: Seq<PendingComputation>,
    circuit: Circuit,
    offset: u64,
    output: SignedComputationOutput,
    signature_valid: bool,
    error: Option<ErrorCode>,
) -> bool {
    &&& !occupied(before, circuit.id_spec(), offset) ==> error == Some(ErrorCode::NotPending)
        && after == before
    &&& occupied(before, circuit.id_spec(), offset) ==> exists|i: int|
        0 <= i < before.len() && holds(#[trigger] before[i], circuit.id_spec(), offset) && after
            == before.remove(i) && (error is None == output_accepted(before[i], output,
            signature_valid, circuit.blocks_spec())) && (error is Some ==> error == Some(
            ErrorCode::AbortedComputation))
}

/// The unresolved requests.
pub struct Dispatcher {
    pub pending: Vec<PendingComputation>,
}

impl Dispatcher {
    /// No key is held twice.
    pub open spec fn wf(&self) -> bool {
        forall|i: int, j: int|
            0 <= i < self.pending@.len() && 0 <= j < self.pending@.len() && i != j ==> !holds(
                #[trigger] self.pending@[i],
                #[trigger] self.pending@[j].circuit_id,
                self.pending@[j].computation_offset,
            )
    }

    /// No request is pending.
    pub fn new() -> (r: Dispatcher)
        ensures
            r.pending@.len() == 0,
            r.wf(),
    {
        Dispatcher { pending: Vec::new() }
    }

    /// The position of the request holding (`id`, `offset`), if one does.
    pub fn find(&self, id: u32, offset: u64) -> (r: Option<usize>)
        ensures
            r is None == !occupied(self.pending@, id, offset),
            r matches Some(i) ==> i < self.pending@.len() && holds(self.pending@[i as int], id, offset),
    {
        let mut i: usize = 0;
        while i < self.pending.len()
            invariant
                0 <= i <= self.pending@.len(),
                forall|j: int| 0 <= j < i ==> !holds(#[trigger] self.pending@[j], id, offset),
            decreases self.pending@.len() - i,
        {
            if self.pending[i].circuit_id == id && self.pending[i].computation_offset == offset {
                return Some(i);
            }
            i = i + 1;
        }
        None
    }

    /// Queues a request for `circuit` at `computation_offset`, whose result
    /// goes to the callback of `callback`. Every storage address the request
    /// names must be the one derived for it; the key must be free: an occupied
    /// key is refused, never overwritten. A failure changes nothing.
    pub fn queue(
        &mut self,
        registry: &Registry,
        circuit: Circuit,
        computation_offset: u64,
        accounts: &QueueAccounts,
        arguments: EncryptedArgumentBundle,
        callback: Circuit,
        priority: u64,
        flags: u64,
    ) -> (r: Result<(), ErrorCode>)
        requires
            old(self).wf(),
        ensures
            final(self).wf(),
            r == match queue_error(registry, old(self).pending@, circuit, computation_offset,
                arguments.ciphertexts@.len(), *accounts) {
                Some(e) => Err::<(), ErrorCode>(e),
                None => Ok(()),
            },
            r is Err ==> final(self).pending@ == old(self).pending@,
            r is Ok ==> final(self).pending@ == old(self).pending@.push(
                PendingComputation {
                    circuit_id: circuit.id_spec(),
                    computation_offset,
                    requester: accounts.payer,
                    arguments,
                    callback,
                    priority,
                    flags,
                },
            ),
    {
        let arcium = arcium_program_id_bytes();
        if !address_matches(&accounts.mxe_account, &mxe_seeds_for(), &arcium) {
            return Err(ErrorCode::InvalidAddress);
        }
        let cluster = match accounts.cluster {
            Some(c) => c,
            None => return Err(ErrorCode::ClusterNotSet),
        };
        let id = circuit.circuit_id();
        if !address_matches(&accounts.mempool_account, &mempool_seeds_for(cluster), &arcium)
            || !address_matches(&accounts.executing_pool, &execpool_seeds_for(cluster), &arcium)
            || !address_matches(
            &accounts.computation_account,
            &computation_seeds_for(cluster, computation_offset),
            &arcium,
        ) || !address_matches(&accounts.comp_def_account, &comp_def_seeds_for(id), &arcium)
            || !address_matches(&accounts.cluster_account, &cluster_seeds_for(cluster), &arcium) {
            return Err(ErrorCode::InvalidAddress);
        }
        if !registry.is_registered(id) {
            return Err(ErrorCode::UnknownCircuit);
        }
        if arguments.ciphertexts.len() != circuit.input_blocks() {
            return Err(ErrorCode::WrongArgumentCount);
        }
        if self.find(id, computation_offset).is_some() {
            return Err(ErrorCode::ComputationOccupied);
        }
        self.pending.push(
            PendingComputation {
                circuit_id: id,
                computation_offset,
                requester: accounts.payer,
                arguments,
                callback,
                priority,
                flags,
            },
        );
        Ok(())
    }

    /// Resolves the request for `circuit` at `computation_offset` with the
    /// cluster's result: the request is consumed whatever the verdict, and the
    /// result is returned only where it is accepted.
    pub fn resolve(
        &mut self,
        circuit: Circuit,
        computation_offset: u64,
        output: &SignedComputationOutput,
        signature_valid: bool,
    ) -> (r: Result<DecodedOutput, ErrorCode>)
        requires
            old(self).wf(),
        ensures
            final(self).wf(),
            resolve_post(old(self).pending@, final(self).pending@, circuit, computation_offset,
                *output, signature_valid, result_error(r)),
            r matches Ok(d) ==> d.ciphertexts@ == output.ciphertexts@ && d.nonce == output.nonce,
    {
        let id = circuit.circuit_id();
        let i = match self.find(id, computation_offset) {
            Some(i) => i,
            None => return Err(ErrorCode::NotPending),
        };
        let record = self.pending.remove(i);
        assert forall|a: int, b: int|
            0 <= a < self.pending@.len() && 0 <= b < self.pending@.len() && a != b implies !holds(
            #[trigger] self.pending@[a],
            #[trigger] self.pending@[b].circuit_id,
            self.pending@[b].computation_offset,
        ) by {
            let a0 = if a < i { a } else { a + 1 };
            let b0 = if b < i { b } else { b + 1 };
            assert(self.pending@[a] == old(self).pending@[a0]);
            assert(self.pending@[b] == old(self).pending@[b0]);
        }
        verify_output(&record, output, signature_valid, circuit.output_blocks())
    }
}

/// A result bound to one request is refused for any other: where the offsets
/// differ it is not accepted, even with a valid signature.
pub proof fn lemma_cross_bound_output_rejected(
    pending: PendingComputation,
    output: SignedComputationOutput,
    blocks: nat,
)
    requires
        output.computation_offset != pending.computation_offset,
    ensures
        !output_accepted(pending, output, true, blocks),
{
}

/// After a request is queued, a second request on the same circuit and offset
/// is refused as occupied, while the first is unresolved.
pub proof fn lemma_second_queue_refused(
    registry: &Registry,
    pending: Seq<PendingComputation>,
    first: PendingComputation,
    circuit: Circuit,
    offset: u64,
    blocks: nat,
    accounts: QueueAccounts,
)
    requires
        queue_error(registry, pending, circuit, offset, blocks, accounts) is None,
        first.circuit_id == circuit.id_spec(),
        first.computation_offset == offset,
    ensures
        queue_error(registry, pending.push(first), circuit, offset, blocks, accounts) == Some(
            ErrorCode::ComputationOccupied,
        ),
{
    assert(pending.push(first)[pending.len() as int] == first);
}

} // verus!
