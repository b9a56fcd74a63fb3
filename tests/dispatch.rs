use poseidon::address::find_address;
use poseidon::dispatch::{
    arcium_program_id_bytes, cluster_seeds_for, comp_def_seeds_for, computation_seeds_for, execpool_seeds_for,
    mempool_seeds_for, mxe_program_id_bytes, mxe_seeds_for, Circuit, Dispatcher, QueueAccounts, Registry,
    SignedComputationOutput,
};
use poseidon::encoder::build;
use poseidon::privacy::{
    encrypted_deposit, encrypted_deposit_callback, encrypted_rebalance, encrypted_rebalance_callback,
    init_encrypted_deposit_comp_def, init_encrypted_rebalance_comp_def, init_view_position_comp_def,
    view_position, view_position_callback, ErrorCode,
};

const CLUSTER: u32 = 42;

fn at(seeds: Vec<Vec<u8>>) -> [u8; 32] {
    find_address(&seeds, &arcium_program_id_bytes()).unwrap().0
}

fn accounts_for(circuit: Circuit, offset: u64) -> QueueAccounts {
    QueueAccounts {
        payer: [3u8; 32],
        mxe_account: at(mxe_seeds_for()),
        cluster: Some(CLUSTER),
        mempool_account: at(mempool_seeds_for(CLUSTER)),
        executing_pool: at(execpool_seeds_for(CLUSTER)),
        computation_account: at(computation_seeds_for(CLUSTER, offset)),
        comp_def_account: at(comp_def_seeds_for(circuit.circuit_id())),
        cluster_account: at(cluster_seeds_for(CLUSTER)),
    }
}

fn accounts(offset: u64) -> QueueAccounts {
    accounts_for(Circuit::EncryptedDeposit, offset)
}

fn ready() -> (Registry, Dispatcher) {
    let mut reg = Registry::new();
    init_encrypted_deposit_comp_def(&mut reg).unwrap();
    init_encrypted_rebalance_comp_def(&mut reg).unwrap();
    init_view_position_comp_def(&mut reg).unwrap();
    (reg, Dispatcher::new())
}

fn output(offset: u64, circuit: Circuit, blocks: usize) -> SignedComputationOutput {
    SignedComputationOutput {
        circuit_id: circuit.circuit_id(),
        computation_offset: offset,
        ciphertexts: (0..blocks).map(|i| [i as u8 + 10; 32]).collect(),
        nonce: 0x0102_0304_0506_0708_090a_0b0c_0d0e_0f10,
    }
}

#[test]
fn circuit_ids_come_from_names() {
    assert_eq!(Circuit::EncryptedDeposit.circuit_id(), 2004231041);
    assert_eq!(Circuit::EncryptedRebalance.circuit_id(), 763659416);
    assert_eq!(Circuit::ViewPosition.circuit_id(), 951239296);
}

#[test]
fn program_ids_match_the_network() {
    assert_eq!(arcium_program_id_bytes(), arcium_anchor::prelude::ARCIUM_PROG_ID.to_bytes());
    assert_eq!(mxe_program_id_bytes()[0], 175);
}

#[test]
fn registration_happens_once() {
    let mut reg = Registry::new();
    assert_eq!(init_encrypted_deposit_comp_def(&mut reg), Ok(()));
    assert!(reg.is_registered(2004231041));
    assert_eq!(init_encrypted_deposit_comp_def(&mut reg), Err(ErrorCode::AlreadyRegistered));
    assert_eq!(reg.definitions.len(), 1);
    assert_eq!(reg.definitions[0].circuit, Circuit::EncryptedDeposit);
}

#[test]
fn bundle_wire_layout() {
    let b = build([1u8; 32], 0x0102, vec![[2u8; 32], [3u8; 32]]);
    let bytes = b.to_bytes();
    assert_eq!(bytes.len(), 32 + 16 + 64);
    assert_eq!(&bytes[..32], &[1u8; 32]);
    assert_eq!(&bytes[32..48], &0x0102u128.to_le_bytes());
    assert_eq!(bytes[32], 2);
    assert_eq!(bytes[33], 1);
    assert_eq!(&bytes[48..80], &[2u8; 32]);
    assert_eq!(&bytes[80..112], &[3u8; 32]);
}

#[test]
fn queue_and_resolve_deposit() {
    let (reg, mut d) = ready();
    let acc = accounts(1);
    encrypted_deposit(&mut d, &reg, &acc, 1, [1u8; 32], [2u8; 32], [3u8; 32], [4u8; 32], 99).unwrap();
    assert_eq!(d.pending.len(), 1);
    assert_eq!(d.pending[0].arguments.ciphertexts, vec![[1u8; 32], [2u8; 32], [3u8; 32]]);
    assert_eq!(d.pending[0].requester, [3u8; 32]);
    assert_eq!(d.pending[0].callback, Circuit::EncryptedDeposit);
    assert_eq!((d.pending[0].priority, d.pending[0].flags), (1, 0));
    let out = output(1, Circuit::EncryptedDeposit, 3);
    let e = encrypted_deposit_callback(&mut d, 1, &out, true).unwrap();
    assert_eq!(e.encrypted_amount, [10u8; 32]);
    assert_eq!(e.encrypted_price_lower, [11u8; 32]);
    assert_eq!(e.encrypted_price_upper, [12u8; 32]);
    assert_eq!(e.nonce, out.nonce.to_le_bytes());
    assert!(d.pending.is_empty());
}

#[test]
fn queue_twice_on_same_offset_fails() {
    let (reg, mut d) = ready();
    let acc = accounts(7);
    encrypted_deposit(&mut d, &reg, &acc, 7, [1u8; 32], [2u8; 32], [3u8; 32], [4u8; 32], 1).unwrap();
    let r = encrypted_deposit(&mut d, &reg, &acc, 7, [9u8; 32], [9u8; 32], [9u8; 32], [9u8; 32], 2);
    assert_eq!(r, Err(ErrorCode::ComputationOccupied));
    assert_eq!(d.pending.len(), 1);
    assert_eq!(d.pending[0].arguments.nonce, 1);
    assert_eq!(d.pending[0].arguments.ciphertexts[0], [1u8; 32]);
}

#[test]
fn offset_is_free_again_after_resolution() {
    let (reg, mut d) = ready();
    let acc = accounts(7);
    encrypted_deposit(&mut d, &reg, &acc, 7, [1u8; 32], [2u8; 32], [3u8; 32], [4u8; 32], 1).unwrap();
    let out = output(7, Circuit::EncryptedDeposit, 3);
    encrypted_deposit_callback(&mut d, 7, &out, false).unwrap_err();
    assert_eq!(encrypted_deposit(&mut d, &reg, &acc, 7, [1u8; 32], [2u8; 32], [3u8; 32], [4u8; 32], 2), Ok(()));
}

#[test]
fn output_bound_to_another_offset_is_aborted() {
    let (reg, mut d) = ready();
    encrypted_deposit(&mut d, &reg, &accounts(1), 1, [1u8; 32], [2u8; 32], [3u8; 32], [4u8; 32], 1).unwrap();
    encrypted_deposit(&mut d, &reg, &accounts(2), 2, [1u8; 32], [2u8; 32], [3u8; 32], [4u8; 32], 1).unwrap();
    let for_one = output(1, Circuit::EncryptedDeposit, 3);
    assert_eq!(encrypted_deposit_callback(&mut d, 2, &for_one, true), Err(ErrorCode::AbortedComputation));
    assert_eq!(d.pending.len(), 1);
    assert_eq!(d.pending[0].computation_offset, 1);
}

#[test]
fn bad_signature_is_aborted() {
    let (reg, mut d) = ready();
    view_position(&mut d, &reg, &accounts_for(Circuit::ViewPosition, 3), 3, [1u8; 32], [2u8; 32], [3u8; 32], [4u8; 32], 1).unwrap();
    let out = output(3, Circuit::ViewPosition, 3);
    assert_eq!(view_position_callback(&mut d, 3, &out, false), Err(ErrorCode::AbortedComputation));
    assert_eq!(view_position_callback(&mut d, 3, &out, true), Err(ErrorCode::NotPending));
}

#[test]
fn wrong_output_length_is_aborted() {
    let (reg, mut d) = ready();
    view_position(&mut d, &reg, &accounts_for(Circuit::ViewPosition, 3), 3, [1u8; 32], [2u8; 32], [3u8; 32], [4u8; 32], 1).unwrap();
    let out = output(3, Circuit::ViewPosition, 4);
    assert_eq!(view_position_callback(&mut d, 3, &out, true), Err(ErrorCode::AbortedComputation));
}

#[test]
fn view_round_trip() {
    let (reg, mut d) = ready();
    view_position(&mut d, &reg, &accounts_for(Circuit::ViewPosition, 3), 3, [1u8; 32], [2u8; 32], [3u8; 32], [4u8; 32], 1).unwrap();
    let out = output(3, Circuit::ViewPosition, 3);
    let e = view_position_callback(&mut d, 3, &out, true).unwrap();
    assert_eq!(e.encrypted_price_upper, [12u8; 32]);
}

#[test]
fn rebalance_round_trip() {
    let (reg, mut d) = ready();
    encrypted_rebalance(&mut d, &reg, &accounts_for(Circuit::EncryptedRebalance, 4), 4, [1u8; 32], [2u8; 32], [3u8; 32], [4u8; 32], [5u8; 32], 8)
        .unwrap();
    assert_eq!(d.pending[0].arguments.ciphertexts.len(), 4);
    let out = output(4, Circuit::EncryptedRebalance, 4);
    let e = encrypted_rebalance_callback(&mut d, 4, &out, true).unwrap();
    assert_eq!(e.encrypted_new_amount_a, [10u8; 32]);
    assert_eq!(e.encrypted_new_price_upper, [13u8; 32]);
    assert_eq!(e.nonce[0], 0x10);
}

#[test]
fn cross_circuit_output_is_aborted() {
    let (reg, mut d) = ready();
    view_position(&mut d, &reg, &accounts_for(Circuit::ViewPosition, 3), 3, [1u8; 32], [2u8; 32], [3u8; 32], [4u8; 32], 1).unwrap();
    let out = output(3, Circuit::EncryptedDeposit, 3);
    assert_eq!(view_position_callback(&mut d, 3, &out, true), Err(ErrorCode::AbortedComputation));
}

#[test]
fn resolving_unknown_request_fails() {
    let (_, mut d) = ready();
    let out = output(5, Circuit::EncryptedDeposit, 3);
    assert_eq!(encrypted_deposit_callback(&mut d, 5, &out, true), Err(ErrorCode::NotPending));
}

#[test]
fn queue_refusals() {
    let (reg, mut d) = ready();
    let mut no_cluster = accounts(1);
    no_cluster.cluster = None;
    assert_eq!(
        encrypted_deposit(&mut d, &reg, &no_cluster, 1, [1u8; 32], [2u8; 32], [3u8; 32], [4u8; 32], 1),
        Err(ErrorCode::ClusterNotSet)
    );
    let foreign = accounts(2);
    assert_eq!(
        encrypted_deposit(&mut d, &reg, &foreign, 1, [1u8; 32], [2u8; 32], [3u8; 32], [4u8; 32], 1),
        Err(ErrorCode::InvalidAddress)
    );
    let mut wrong_mempool = accounts(1);
    wrong_mempool.mempool_account = at(mempool_seeds_for(CLUSTER + 1));
    let mut wrong_pool = accounts(1);
    wrong_pool.executing_pool = wrong_pool.mempool_account;
    let mut wrong_cluster = accounts(1);
    wrong_cluster.cluster_account = [0u8; 32];
    let mut wrong_mxe = accounts(1);
    wrong_mxe.mxe_account = [1u8; 32];
    wrong_mxe.cluster = None;
    let wrong_def = accounts_for(Circuit::ViewPosition, 1);
    for acc in [wrong_mempool, wrong_pool, wrong_cluster, wrong_mxe, wrong_def] {
        assert_eq!(
            encrypted_deposit(&mut d, &reg, &acc, 1, [1u8; 32], [2u8; 32], [3u8; 32], [4u8; 32], 1),
            Err(ErrorCode::InvalidAddress)
        );
    }
    let empty = Registry::new();
    assert_eq!(
        encrypted_deposit(&mut d, &empty, &accounts(1), 1, [1u8; 32], [2u8; 32], [3u8; 32], [4u8; 32], 1),
        Err(ErrorCode::UnknownCircuit)
    );
    let short = build([4u8; 32], 1, vec![[1u8; 32]]);
    assert_eq!(
        d.queue(&reg, Circuit::EncryptedDeposit, 1, &accounts(1), short, Circuit::EncryptedDeposit, 1, 0),
        Err(ErrorCode::WrongArgumentCount)
    );
    assert!(d.pending.is_empty());
}
