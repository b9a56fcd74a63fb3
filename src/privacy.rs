//! The confidential-computation program: registering the circuits, queuing
//! encrypted requests, and publishing the verified results.
use vstd::prelude::*;
use vstd::bytes::{spec_u128_to_le_bytes, u128_to_le_bytes};
use crate::dispatch::{
    queue_error, resolve_post, result_error, Circuit, ComputationDefinition, Dispatcher, QueueAccounts, PendingComputation, Registry,
    SignedComputationOutput,
};
use crate::encoder::{build, Ciphertext};

verus! {

/// Why a request or a callback of the computation program was refused.
#[derive(Clone, Copy, Debug, PartialEq, Eq)]
pub enum ErrorCode {
    /// The cluster's signed output did not verify, or answers another request.
    AbortedComputation,
    /// No cluster is assigned to the program.
    ClusterNotSet,
    /// The circuit's definition is already registered.
    AlreadyRegistered,
    /// The circuit has no registered definition.
    UnknownCircuit,
    /// The number of ciphertext blocks does not match the circuit.
    WrongArgumentCount,
    /// A supplied storage address is not the one derived for the request.
    InvalidAddress,
    /// An unresolved request already holds this circuit and offset.
    ComputationOccupied,
    /// No unresolved request holds this circuit and offset.
    NotPending,
}


/// Published when a deposit's result is verified.
#[derive(Clone, Copy, Debug, PartialEq, Eq)]
pub struct DepositEvent {
    pub encrypted_amount: [u8; 32],
    pub encrypted_price_lower: [u8; 32],
    pub encrypted_price_upper: [u8; 32],
    pub nonce: [u8; 16],
}

/// Published when a rebalance's result is verified.
#[derive(Clone, Copy, Debug, PartialEq, Eq)]
pub struct RebalanceEvent {
    pub encrypted_new_amount_a: [u8; 32],
    pub encrypted_new_amount_b: [u8; 32],
    pub encrypted_new_price_lower: [u8; 32],
    pub encrypted_new_price_upper: [u8; 32],
    pub nonce: [u8; 16],
}

/// Published when a view's result is verified.
#[derive(Clone, Copy, Debug, PartialEq, Eq)]
pub struct ViewPositionEvent {
    pub encrypted_amount: [u8; 32],
    pub encrypted_price_lower: [u8; 32],
    pub encrypted_price_upper: [u8; 32],
    pub nonce: [u8; 16],
}

/// What queuing a request does: it fails exactly on the first failed check,
/// changing nothing, and otherwise appends the request with its arguments in
/// the order given, its result going to the circuit's own callback, at
/// priority 1 and with no flags.
pub open spec fn queue_post(
    registry: &Registry,
    before: Seq<PendingComputation>,
    after: Seq<PendingComputation>,
    circuit: Circuit,
    offset: u64,
    accounts: QueueAccounts,
    pub_key: [u8; 32],
    nonce: u128,
    ciphertexts: Seq<Ciphertext>,
    error: Option<ErrorCode>,
) -> bool {
    &&& error == queue_error(registry, before, circuit, offset, ciphertexts.len(), accounts)
    &&& error is Some ==> after == before
    &&& error is None ==> {
        &&& after.len() == before.len() + 1
        &&& after.subrange(0, before.len() as int) == before
        &&& after.last().circuit_id == circuit.id_spec()
        &&& after.last().computation_offset == offset
        &&& after.last().requester == accounts.payer
        &&& after.last().arguments.pub_key == pub_key
        &&& after.last().arguments.nonce == nonce
        &&& after.last().arguments.ciphertexts@ == ciphertexts
        &&& after.last().callback == circuit
        &&& after.last().priority == 1
        &&& after.last().flags == 0
    }
}

/// The nonce as published: sixteen bytes, little-endian.
fn nonce_bytes(nonce: u128) -> (r: [u8; 16])
    ensures
        r@ == spec_u128_to_le_bytes(nonce),
{
    let v = u128_to_le_bytes(nonce);
    let mut r: [u8; 16] = [0u8; 16];
    let mut i: usize = 0;
    while i < 16
        invariant
            0 <= i <= 16,
            v@.len() == 16,
            r@.len() == 16,
            forall|j: int| 0 <= j < i ==> r@[j] == v@[j],
        decreases 16 - i,
    {
        r[i] = v[i];
        i = i + 1;
    }
    assert(r@ =~= v@);
    r
}

/// Registers the definition of `circuit`.
fn init_comp_def(registry: &mut Registry, circuit: Circuit) -> (r: Result<(), ErrorCode>)
    requires
        old(registry).wf(),
    ensures
        final(registry).wf(),
        old(registry).registered(circuit.id_spec()) ==> r == Err::<(), ErrorCode>(
            ErrorCode::AlreadyRegistered,
        ) && final(registry).definitions@ == old(registry).definitions@,
        !old(registry).registered(circuit.id_spec()) ==> r == Ok::<(), ErrorCode>(())
            && final(registry).definitions@ == old(registry).definitions@.push(
                ComputationDefinition { circuit_id: circuit.id_spec(), circuit: circuit },
            ),
{
    match registry.register(circuit) {
        Ok(_) => Ok(()),
        Err(e) => Err(e),
    }
}

/// Registers the deposit circuit, once.
pub fn init_encrypted_deposit_comp_def(registry: &mut Registry) -> (r: Result<(), ErrorCode>)
    requires
        old(registry).wf(),
    ensures
        final(registry).wf(),
        old(registry).registered(Circuit::EncryptedDeposit.id_spec()) ==> r == Err::<(), ErrorCode>(
            ErrorCode::AlreadyRegistered,
        ) && final(registry).definitions@ == old(registry).definitions@,
        !old(registry).registered(Circuit::EncryptedDeposit.id_spec()) ==> r == Ok::<(), ErrorCode>(())
            && final(registry).definitions@ == old(registry).definitions@.push(
                ComputationDefinition { circuit_id: Circuit::EncryptedDeposit.id_spec(), circuit: Circuit::EncryptedDeposit },
            ),
{
    init_comp_def(registry, Circuit::EncryptedDeposit)
}

/// Registers the rebalance circuit, once.
pub fn init_encrypted_rebalance_comp_def(registry: &mut Registry) -> (r: Result<(), ErrorCode>)
    requires
        old(registry).wf(),
    ensures
        final(registry).wf(),
        old(registry).registered(Circuit::EncryptedRebalance.id_spec()) ==> r == Err::<(), ErrorCode>(
            ErrorCode::AlreadyRegistered,
        ) && final(registry).definitions@ == old(registry).definitions@,
        !old(registry).registered(Circuit::EncryptedRebalance.id_spec()) ==> r == Ok::<(), ErrorCode>(())
            && final(registry).definitions@ == old(registry).definitions@.push(
                ComputationDefinition { circuit_id: Circuit::EncryptedRebalance.id_spec(), circuit: Circuit::EncryptedRebalance },
            ),
{
    init_comp_def(registry, Circuit::EncryptedRebalance)
}

/// Registers the view circuit, once.
pub fn init_view_position_comp_def(registry: &mut Registry) -> (r: Result<(), ErrorCode>)
    requires
        old(registry).wf(),
    ensures
        final(registry).wf(),
        old(registry).registered(Circuit::ViewPosition.id_spec()) ==> r == Err::<(), ErrorCode>(
            ErrorCode::AlreadyRegistered,
        ) && final(registry).definitions@ == old(registry).definitions@,
        !old(registry).registered(Circuit::ViewPosition.id_spec()) ==> r == Ok::<(), ErrorCode>(())
            && final(registry).definitions@ == old(registry).definitions@.push(
                ComputationDefinition { circuit_id: Circuit::ViewPosition.id_spec(), circuit: Circuit::ViewPosition },
            ),
{
    init_comp_def(registry, Circuit::ViewPosition)
}

/// Queues a request for `circuit` with the arguments in the order given.
fn queue_request(
    dispatcher: &mut Dispatcher,
    registry: &Registry,
    circuit: Circuit,
    computation_offset: u64,
    accounts: &QueueAccounts,
    pub_key: [u8; 32],
    nonce: u128,
    ciphertexts: Vec<Ciphertext>,
) -> (r: Result<(), ErrorCode>)
    requires
        old(dispatcher).wf(),
    ensures
        final(dispatcher).wf(),
        queue_post(registry, old(dispatcher).pending@, final(dispatcher).pending@, circuit,
            computation_offset, *accounts, pub_key, nonce, ciphertexts@, result_error(r)),
{
    let ghost cts = ciphertexts@;
    let args = build(pub_key, nonce, ciphertexts);
    let r = dispatcher.queue(registry, circuit, computation_offset, accounts, args, circuit, 1, 0);
    proof {
        if r is Ok {
            assert(final(dispatcher).pending@.subrange(0, old(dispatcher).pending@.len() as int)
                =~= old(dispatcher).pending@);
        }
    }
    r
}

/// Queues a deposit: the amount and both price bounds, encrypted.
pub fn encrypted_deposit(
    dispatcher: &mut Dispatcher,
    registry: &Registry,
    accounts: &QueueAccounts,
    computation_offset: u64,
    ct_amount: [u8; 32],
    ct_price_lower: [u8; 32],
    ct_price_upper: [u8; 32],
    pub_key: [u8; 32],
    nonce: u128,
) -> (r: Result<(), ErrorCode>)
    requires
        old(dispatcher).wf(),
    ensures
        final(dispatcher).wf(),
        queue_post(registry, old(dispatcher).pending@, final(dispatcher).pending@,
            Circuit::EncryptedDeposit, computation_offset, *accounts, pub_key, nonce,
            seq![ct_amount, ct_price_lower, ct_price_upper], result_error(r)),
{
    let cts: Vec<Ciphertext> = vec![ct_amount, ct_price_lower, ct_price_upper];
    assert(cts@ =~= seq![ct_amount, ct_price_lower, ct_price_upper]);
    queue_request(dispatcher, registry, Circuit::EncryptedDeposit, computation_offset, accounts,
        pub_key, nonce, cts)
}

/// Queues a rebalance: both amounts and the new price bounds, encrypted.
pub fn encrypted_rebalance(
    dispatcher: &mut Dispatcher,
    registry: &Registry,
    accounts: &QueueAccounts,
    computation_offset: u64,
    ct_amount_a: [u8; 32],
    ct_amount_b: [u8; 32],
    ct_new_price_lower: [u8; 32],
    ct_new_price_upper: [u8; 32],
    pub_key: [u8; 32],
    nonce: u128,
) -> (r: Result<(), ErrorCode>)
    requires
        old(dispatcher).wf(),
    ensures
        final(dispatcher).wf(),
        queue_post(registry, old(dispatcher).pending@, final(dispatcher).pending@,
            Circuit::EncryptedRebalance, computation_offset, *accounts, pub_key, nonce,
            seq![ct_amount_a, ct_amount_b, ct_new_price_lower, ct_new_price_upper], result_error(r)),
{
    let cts: Vec<Ciphertext> = vec![ct_amount_a, ct_amount_b, ct_new_price_lower, ct_new_price_upper];
    assert(cts@ =~= seq![ct_amount_a, ct_amount_b, ct_new_price_lower, ct_new_price_upper]);
    queue_request(dispatcher, registry, Circuit::EncryptedRebalance, computation_offset, accounts,
        pub_key, nonce, cts)
}

/// Queues a view of a position: the amount and both price bounds, encrypted.
pub fn view_position(
    dispatcher: &mut Dispatcher,
    registry: &Registry,
    accounts: &QueueAccounts,
    computation_offset: u64,
    ct_amount: [u8; 32],
    ct_price_lower: [u8; 32],
    ct_price_upper: [u8; 32],
    pub_key: [u8; 32],
    nonce: u128,
) -> (r: Result<(), ErrorCode>)
    requires
        old(dispatcher).wf(),
    ensures
        final(dispatcher).wf(),
        queue_post(registry, old(dispatcher).pending@, final(dispatcher).pending@,
            Circuit::ViewPosition, computation_offset, *accounts, pub_key, nonce,
            seq![ct_amount, ct_price_lower, ct_price_upper], result_error(r)),
{
    let cts: Vec<Ciphertext> = vec![ct_amount, ct_price_lower, ct_price_upper];
    assert(cts@ =~= seq![ct_amount, ct_price_lower, ct_price_upper]);
    queue_request(dispatcher, registry, Circuit::ViewPosition, computation_offset, accounts,
        pub_key, nonce, cts)
}

/// Resolves a deposit with the cluster's result; an accepted result is published.
/// `signature_valid` is the verdict of the network's signature check on the
/// whole signed output, its circuit and offset included, under the cluster's
/// registered key; the caller obtains it from the network's verifier.
pub fn encrypted_deposit_callback(
    dispatcher: &mut Dispatcher,
    computation_offset: u64,
    output: &SignedComputationOutput,
    signature_valid: bool,
) -> (r: Result<DepositEvent, ErrorCode>)
    requires
        old(dispatcher).wf(),
    ensures
        final(dispatcher).wf(),
        resolve_post(old(dispatcher).pending@, final(dispatcher).pending@,
            Circuit::EncryptedDeposit, computation_offset, *output, signature_valid, result_error(r)),
        r matches Ok(e) ==> {
            &&& e.encrypted_amount == output.ciphertexts@[0]
            &&& e.encrypted_price_lower == output.ciphertexts@[1]
            &&& e.encrypted_price_upper == output.ciphertexts@[2]
            &&& e.nonce@ == spec_u128_to_le_bytes(output.nonce)
        },
{
    let o = dispatcher.resolve(Circuit::EncryptedDeposit, computation_offset, output, signature_valid)?;
    Ok(DepositEvent {
        encrypted_amount: o.ciphertexts[0],
        encrypted_price_lower: o.ciphertexts[1],
        encrypted_price_upper: o.ciphertexts[2],
        nonce: nonce_bytes(o.nonce),
    })
}

/// Resolves a rebalance with the cluster's result; an accepted result is published.
pub fn encrypted_rebalance_callback(
    dispatcher: &mut Dispatcher,
    computation_offset: u64,
    output: &SignedComputationOutput,
    signature_valid: bool,
) -> (r: Result<RebalanceEvent, ErrorCode>)
    requires
        old(dispatcher).wf(),
    ensures
        final(dispatcher).wf(),
        resolve_post(old(dispatcher).pending@, final(dispatcher).pending@,
            Circuit::EncryptedRebalance, computation_offset, *output, signature_valid, result_error(r)),
        r matches Ok(e) ==> {
            &&& e.encrypted_new_amount_a == output.ciphertexts@[0]
            &&& e.encrypted_new_amount_b == output.ciphertexts@[1]
            &&& e.encrypted_new_price_lower == output.ciphertexts@[2]
            &&& e.encrypted_new_price_upper == output.ciphertexts@[3]
            &&& e.nonce@ == spec_u128_to_le_bytes(output.nonce)
        },
{
    let o = dispatcher.resolve(Circuit::EncryptedRebalance, computation_offset, output, signature_valid)?;
    Ok(RebalanceEvent {
        encrypted_new_amount_a: o.ciphertexts[0],
        encrypted_new_amount_b: o.ciphertexts[1],
        encrypted_new_price_lower: o.ciphertexts[2],
        encrypted_new_price_upper: o.ciphertexts[3],
        nonce: nonce_bytes(o.nonce),
    })
}

/// Resolves a view with the cluster's result; an accepted result is published.
pub fn view_position_callback(
    dispatcher: &mut Dispatcher,
    computation_offset: u64,
    output: &SignedComputationOutput,
    signature_valid: bool,
) -> (r: Result<ViewPositionEvent, ErrorCode>)
    requires
        old(dispatcher).wf(),
    ensures
        final(dispatcher).wf(),
        resolve_post(old(dispatcher).pending@, final(dispatcher).pending@,
            Circuit::ViewPosition, computation_offset, *output, signature_valid, result_error(r)),
        r matches Ok(e) ==> {
            &&& e.encrypted_amount == output.ciphertexts@[0]
            &&& e.encrypted_price_lower == output.ciphertexts@[1]
            &&& e.encrypted_price_upper == output.ciphertexts@[2]
            &&& e.nonce@ == spec_u128_to_le_bytes(output.nonce)
        },
{
    let o = dispatcher.resolve(Circuit::ViewPosition, computation_offset, output, signature_valid)?;
    Ok(ViewPositionEvent {
        encrypted_amount: o.ciphertexts[0],
        encrypted_price_lower: o.ciphertexts[1],
        encrypted_price_upper: o.ciphertexts[2],
        nonce: nonce_bytes(o.nonce),
    })
}

} // verus!
