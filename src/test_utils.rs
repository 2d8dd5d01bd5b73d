use vstd::prelude::*;

use crate::block::{FinalityStatus, SealedBlock};
use crate::felt::Felt;
use crate::genesis::Genesis;
use crate::provider::{Commit, InMemoryProvider};
use crate::state::StateUpdate;
use crate::traits::BlockWriter;

verus! {

/// `b` is block 0 of the test genesis: zero parent and hash, time 0, no
/// transactions, accepted on L2.
pub open spec fn is_test_genesis_block(b: SealedBlock) -> bool {
    &&& b.number() == 0
    &&& b.block.header.parent_hash == Felt::zero_spec()
    &&& b.block.header.timestamp == 0
    &&& b.block.header.sequencer_address == Felt::zero_spec()
    &&& b.block.body@.len() == 0
    &&& b.hash == Felt::zero_spec()
    &&& b.status == FinalityStatus::AcceptedOnL2
}

/// `u` is the diff of the test genesis: it writes nothing.
pub open spec fn is_test_genesis_state(u: StateUpdate) -> bool {
    &&& u.storage_updates@.len() == 0
    &&& u.nonce_updates@.len() == 0
    &&& u.contract_updates@.len() == 0
    &&& u.declared_classes@.len() == 0
}

/// `c` is block 0 of the test genesis, committed with its diff and no
/// receipts or traces.
pub open spec fn is_test_genesis_commit(c: Commit) -> bool {
    &&& is_test_genesis_block(c.block)
    &&& is_test_genesis_state(c.states)
    &&& c.receipts.len() == 0
    &&& c.traces.len() == 0
}

/// An in-memory provider holding only block 0 of the test genesis.
pub fn create_test_in_memory_provider() -> (r: InMemoryProvider)
    ensures
        r@.wf(),
        r@.first_block == 0,
        r@.latest_number() == Some(0u64),
        r@.commit_at(0) matches Some(c) && is_test_genesis_commit(c),
{
    let mut provider = InMemoryProvider::new();
    initialize_test_provider(&mut provider);
    provider
}

/// Commits block 0 of the test genesis to an empty provider.
pub fn initialize_test_provider<P: BlockWriter>(provider: &mut P)
    requires
        old(provider).writer_wf(),
        old(provider).next_block_number() == 0,
    ensures
        final(provider).writer_wf(),
        final(provider).next_block_number() == 1,
        final(provider).committed(0) matches Some(c) && is_test_genesis_commit(c),
        forall|n: int| n != 0 ==> #[trigger] final(provider).committed(n) == old(
            provider,
        ).committed(n),
{
    let genesis = create_genesis_for_testing();
    let block = genesis.block().seal_with_hash_and_status(
        Felt::zero(),
        FinalityStatus::AcceptedOnL2,
    );
    let states = genesis.state_updates();
    let outcome = provider.insert_block_with_states_and_receipts(
        block,
        states,
        Vec::new(),
        Vec::new(),
    );
    assert(outcome is Ok);
}

/// The genesis that test providers start from: no allocations, no classes.
fn create_genesis_for_testing() -> (r: Genesis)
    ensures
        r.allocations@.len() == 0,
        r.classes@.len() == 0,
        r.timestamp == 0,
        r.sequencer_address == Felt::zero_spec(),
        r.fee_token_address == Felt::zero_spec(),
{
    Genesis::default()
}

} // verus!
