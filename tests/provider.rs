use katana_provider::block::{
    Block, BlockHashOrNumber, FinalityStatus, Header, Receipt, SealedBlock,
};
use katana_provider::felt::Felt;
use katana_provider::genesis::{insert_genesis, Genesis, GenesisAllocation};
use katana_provider::provider::{InMemoryProvider, StorageError};
use katana_provider::state::{KeyedFelt, StateKey, StateUpdate, StorageEntry};
use katana_provider::test_utils::{create_test_in_memory_provider, initialize_test_provider};

fn felt(v: u128) -> Felt {
    Felt::from_u128(v)
}

fn sealed(number: u64, hash: u128) -> SealedBlock {
    Block {
        header: Header {
            number,
            parent_hash: Felt::zero(),
            timestamp: 100 + number,
            sequencer_address: felt(9),
        },
        body: vec![felt(1000 + number as u128)],
    }
    .seal_with_hash_and_status(felt(hash), FinalityStatus::AcceptedOnL2)
}

fn storage_diff(contract: u128, key: u128, value: u128) -> StateUpdate {
    let mut u = StateUpdate::empty();
    u.storage_updates.push(StorageEntry { contract: felt(contract), key: felt(key), value: felt(value) });
    u
}

#[test]
fn test_provider_starts_with_genesis_block() {
    let p = create_test_in_memory_provider();
    assert_eq!(p.latest_number(), Some(0));
    let b = p.block(BlockHashOrNumber::Number(0)).unwrap();
    assert_eq!(b.block.header.number, 0);
    assert_eq!(b.hash, Felt::zero());
    assert_eq!(b.status, FinalityStatus::AcceptedOnL2);
    assert!(p.block(BlockHashOrNumber::Number(1)).is_none());
}

#[test]
fn genesis_twice_fails() {
    let mut p = create_test_in_memory_provider();
    let again = insert_genesis(&mut p, &Genesis::default());
    assert_eq!(again, Err(StorageError::InvalidBlockOrder));
    assert_eq!(p.latest_number(), Some(0));
}

#[test]
fn latest_number_tracks_last_commit() {
    let mut p = create_test_in_memory_provider();
    for n in 1..=5u64 {
        let r = p.insert_block_with_states_and_receipts(sealed(n, n as u128), StateUpdate::empty(), vec![], vec![]);
        assert_eq!(r, Ok(()));
        assert_eq!(p.latest_number(), Some(n));
    }
    for n in 0..=5u64 {
        assert_eq!(p.block(BlockHashOrNumber::Number(n)).unwrap().block.header.number, n);
    }
}

#[test]
fn out_of_order_block_is_rejected_and_changes_nothing() {
    let mut p = create_test_in_memory_provider();
    assert_eq!(
        p.insert_block_with_states_and_receipts(sealed(1, 1), storage_diff(1, 2, 3), vec![], vec![]),
        Ok(())
    );
    let gap = p.insert_block_with_states_and_receipts(sealed(3, 3), storage_diff(1, 2, 4), vec![], vec![]);
    assert_eq!(gap, Err(StorageError::InvalidBlockOrder));
    let dup = p.insert_block_with_states_and_receipts(sealed(1, 7), storage_diff(1, 2, 5), vec![], vec![]);
    assert_eq!(dup, Err(StorageError::InvalidBlockOrder));
    assert_eq!(p.latest_number(), Some(1));
    assert_eq!(p.block(BlockHashOrNumber::Number(1)).unwrap().hash, felt(1));
    assert_eq!(p.storage_at(felt(1), felt(2), None), Some(felt(3)));
    assert!(p.block(BlockHashOrNumber::Hash(felt(7))).is_none());
}

#[test]
fn later_write_in_one_diff_counts() {
    let mut p = create_test_in_memory_provider();
    let mut u = storage_diff(1, 2, 3);
    u.storage_updates.push(StorageEntry { contract: felt(1), key: felt(2), value: felt(4) });
    let r = p.insert_block_with_states_and_receipts(sealed(1, 1), u, vec![], vec![]);
    assert_eq!(r, Ok(()));
    assert_eq!(p.storage_at(felt(1), felt(2), Some(1)), Some(felt(4)));
}

#[test]
fn storage_reads_are_versioned() {
    let mut p = create_test_in_memory_provider();
    p.insert_block_with_states_and_receipts(sealed(1, 1), storage_diff(5, 6, 10), vec![], vec![]).unwrap();
    p.insert_block_with_states_and_receipts(sealed(2, 2), StateUpdate::empty(), vec![], vec![]).unwrap();
    p.insert_block_with_states_and_receipts(sealed(3, 3), storage_diff(5, 6, 20), vec![], vec![]).unwrap();
    assert_eq!(p.storage_at(felt(5), felt(6), Some(0)), None);
    assert_eq!(p.storage_at(felt(5), felt(6), Some(1)), Some(felt(10)));
    assert_eq!(p.storage_at(felt(5), felt(6), Some(2)), Some(felt(10)));
    assert_eq!(p.storage_at(felt(5), felt(6), Some(3)), Some(felt(20)));
    assert_eq!(p.storage_at(felt(5), felt(6), None), Some(felt(20)));
    assert_eq!(p.storage_at(felt(5), felt(6), Some(4)), None);
    assert_eq!(p.storage_at(felt(5), felt(7), Some(3)), None);
}

#[test]
fn nonce_and_class_hash_reads() {
    let mut p = create_test_in_memory_provider();
    let mut u = StateUpdate::empty();
    u.nonce_updates.push(KeyedFelt { key: felt(5), value: felt(1) });
    u.contract_updates.push(KeyedFelt { key: felt(5), value: felt(77) });
    p.insert_block_with_states_and_receipts(sealed(1, 1), u, vec![], vec![]).unwrap();
    assert_eq!(p.nonce_at(felt(5), Some(0)), None);
    assert_eq!(p.nonce_at(felt(5), None), Some(felt(1)));
    assert_eq!(p.class_hash_at(felt(5), Some(1)), Some(felt(77)));
    assert_eq!(p.state_at(StateKey::ClassHash(felt(6)), None), None);
}

#[test]
fn block_by_hash_and_receipts() {
    let mut p = create_test_in_memory_provider();
    let receipt = Receipt { transaction_hash: felt(1001), reverted: false, events_emitted: 2, gas_consumed: 30 };
    p.insert_block_with_states_and_receipts(sealed(1, 42), StateUpdate::empty(), vec![receipt], vec![]).unwrap();
    assert_eq!(p.block(BlockHashOrNumber::Hash(felt(42))).unwrap().block.header.number, 1);
    assert_eq!(p.block(BlockHashOrNumber::Hash(Felt::zero())).unwrap().block.header.number, 0);
    assert_eq!(p.receipts(1).unwrap(), &vec![receipt]);
    assert_eq!(p.receipts(0).unwrap().len(), 0);
    assert!(p.receipts(2).is_none());
}

#[test]
fn finality_moves_forward_only() {
    let mut p = create_test_in_memory_provider();
    assert_eq!(p.set_finality_status(0, FinalityStatus::AcceptedOnL1), Ok(()));
    assert_eq!(p.block(BlockHashOrNumber::Number(0)).unwrap().status, FinalityStatus::AcceptedOnL1);
    assert_eq!(
        p.set_finality_status(0, FinalityStatus::AcceptedOnL2),
        Err(StorageError::FinalityRegression)
    );
    assert_eq!(p.block(BlockHashOrNumber::Number(0)).unwrap().status, FinalityStatus::AcceptedOnL1);
    assert_eq!(p.set_finality_status(0, FinalityStatus::AcceptedOnL1), Ok(()));
    assert_eq!(p.set_finality_status(3, FinalityStatus::AcceptedOnL1), Err(StorageError::NotFound));
    assert!(!FinalityStatus::AcceptedOnL1.can_transition_to(FinalityStatus::AcceptedOnL2));
    assert!(FinalityStatus::AcceptedOnL2.can_transition_to(FinalityStatus::AcceptedOnL1));
}

#[test]
fn genesis_allocations_become_block_zero_state() {
    let genesis = Genesis {
        timestamp: 7,
        sequencer_address: felt(3),
        fee_token_address: felt(50),
        classes: vec![KeyedFelt { key: felt(77), value: felt(78) }],
        allocations: vec![
            GenesisAllocation {
                address: felt(50),
                class_hash: felt(77),
                nonce: Some(felt(1)),
                storage: vec![KeyedFelt { key: felt(1), value: felt(1000) }, KeyedFelt { key: felt(2), value: felt(2000) }],
            },
            GenesisAllocation { address: felt(51), class_hash: felt(77), nonce: None, storage: vec![] },
        ],
    };
    let u = genesis.state_updates();
    assert_eq!(u.storage_updates.len(), 2);
    assert_eq!(u.nonce_updates, vec![KeyedFelt { key: felt(50), value: felt(1) }]);
    assert_eq!(u.contract_updates.len(), 2);
    let mut p = InMemoryProvider::new();
    assert_eq!(p.latest_number(), None);
    assert_eq!(insert_genesis(&mut p, &genesis), Ok(()));
    assert_eq!(p.storage_at(felt(50), felt(2), Some(0)), Some(felt(2000)));
    assert_eq!(p.class_hash_at(felt(51), None), Some(felt(77)));
    assert_eq!(p.nonce_at(felt(51), None), None);
    let b = p.block(BlockHashOrNumber::Number(0)).unwrap();
    assert_eq!(b.block.header.timestamp, 7);
    assert_eq!(b.block.header.sequencer_address, felt(3));
    assert_eq!(b.block.header.parent_hash, Felt::zero());
}

#[test]
fn receipts_by_transaction_hash_and_status() {
    let mut p = create_test_in_memory_provider();
    let r1 = Receipt { transaction_hash: felt(1001), reverted: false, events_emitted: 1, gas_consumed: 10 };
    let r2 = Receipt { transaction_hash: felt(1002), reverted: true, events_emitted: 0, gas_consumed: 20 };
    let mut b = sealed(1, 55);
    b.block.body = vec![felt(1001), felt(1002)];
    b.status = FinalityStatus::AcceptedOnL1;
    p.insert_block_with_states_and_receipts(b, StateUpdate::empty(), vec![r1, r2], vec![]).unwrap();
    assert_eq!(p.receipt(felt(1001)), Some(&r1));
    assert_eq!(p.receipt(felt(1002)), Some(&r2));
    assert_eq!(p.receipt(felt(1003)), None);
    assert_eq!(p.block_status(1), Some(FinalityStatus::AcceptedOnL1));
    assert_eq!(p.block_status(0), Some(FinalityStatus::AcceptedOnL2));
    assert_eq!(p.block_status(2), None);
    let by_hash = p.block(BlockHashOrNumber::Hash(felt(55))).unwrap();
    assert_eq!(by_hash.block.body, vec![felt(1001), felt(1002)]);
}

#[test]
fn test_provider_genesis_writes_nothing() {
    let p = create_test_in_memory_provider();
    assert_eq!(p.receipts(0).unwrap().len(), 0);
    assert_eq!(p.nonce_at(Felt::zero(), None), None);
    assert_eq!(p.class_hash_at(Felt::zero(), Some(0)), None);
}

#[test]
fn initialize_test_provider_on_a_fresh_provider() {
    let mut p = InMemoryProvider::new();
    initialize_test_provider(&mut p);
    assert_eq!(p.latest_number(), Some(0));
    assert_eq!(p.block(BlockHashOrNumber::Number(0)).unwrap().hash, Felt::zero());
}
