use vstd::prelude::*;

use crate::block::{Receipt, SealedBlock, TxTrace};
use crate::fork::ForkedProvider;
use crate::provider::{Commit, InMemoryProvider, ProviderView, StorageError};
use crate::state::StateUpdate;

verus! {

/// What committing a block numbered `number` returns,
/// where the next block must be numbered `next`.
pub open spec fn commit_outcome(next: int, number: int) -> Result<
    (),
    StorageError,
> {
    if number != next {
        Err(StorageError::InvalidBlockOrder)
    } else {
        Ok(())
    }
}

/// The one way state is written: a block together with its diff, receipts
/// and traces, all committed at once or not at all.
pub trait BlockWriter {
    spec fn writer_wf(&self) -> bool;

    /// The number the next committed block must carry.
    spec fn next_block_number(&self) -> int;

    /// Block `n` with everything committed with it, if it is committed.
    spec fn committed(&self, n: int) -> Option<Commit>;

    fn insert_block_with_states_and_receipts(
        &mut self,
        block: SealedBlock,
        states: StateUpdate,
        receipts: Vec<Receipt>,
        traces: Vec<TxTrace>,
    ) -> (r: Result<(), StorageError>)
        requires
            old(self).writer_wf(),
        ensures
            final(self).writer_wf(),
            r == commit_outcome(old(self).next_block_number(), block.number() as int),
            r is Ok ==> final(self).next_block_number() == old(self).next_block_number() + 1,
            r is Ok ==> final(self).committed(block.number() as int) == Some(
                (Commit { block, states, receipts: receipts@, traces: traces@ }),
            ),
            r is Ok ==> forall|n: int|
                n != block.number() ==> #[trigger] final(self).committed(n) == old(
                    self,
                ).committed(n),
            r is Err ==> final(self).next_block_number() == old(self).next_block_number(),
            r is Err ==> forall|n: int| #[trigger]
                final(self).committed(n) == old(self).committed(n),
    ;
}

impl BlockWriter for InMemoryProvider {
    open spec fn writer_wf(&self) -> bool {
        self@.wf()
    }

    open spec fn next_block_number(&self) -> int {
        self@.next_number()
    }

    open spec fn committed(&self, n: int) -> Option<Commit> {
        self@.commit_at(n)
    }

    fn insert_block_with_states_and_receipts(
        &mut self,
        block: SealedBlock,
        states: StateUpdate,
        receipts: Vec<Receipt>,
        traces: Vec<TxTrace>,
    ) -> (r: Result<(), StorageError>) {
        let r = InMemoryProvider::insert_block_with_states_and_receipts(
            self,
            block,
            states,
            receipts,
            traces,
        );
        proof {
            if r is Ok {
                lemma_commit_blocks(old(self)@, block, states, receipts@, traces@);
            }
        }
        r
    }
}

impl BlockWriter for ForkedProvider {
    open spec fn writer_wf(&self) -> bool {
        self@.wf()
    }

    open spec fn next_block_number(&self) -> int {
        self@.local.next_number()
    }

    open spec fn committed(&self, n: int) -> Option<Commit> {
        self@.local.commit_at(n)
    }

    fn insert_block_with_states_and_receipts(
        &mut self,
        block: SealedBlock,
        states: StateUpdate,
        receipts: Vec<Receipt>,
        traces: Vec<TxTrace>,
    ) -> (r: Result<(), StorageError>) {
        let r = ForkedProvider::insert_block_with_states_and_receipts(
            self,
            block,
            states,
            receipts,
            traces,
        );
        proof {
            if r is Ok {
                lemma_commit_blocks(old(self)@.local, block, states, receipts@, traces@);
            }
        }
        r
    }
}

/// A successful commit adds the new block, with its diff, receipts and
/// traces, under its number and leaves every other number as it was.
pub proof fn lemma_commit_blocks(
    v: ProviderView,
    block: SealedBlock,
    states: StateUpdate,
    receipts: Seq<Receipt>,
    traces: Seq<TxTrace>,
)
    requires
        v.wf(),
        v.insert_outcome(block.number() as int) is Ok,
    ensures
        v.committed(block, states, receipts, traces).commit_at(block.number() as int) == Some(
            (Commit { block, states, receipts, traces }),
        ),
        forall|n: int|
            n != block.number() ==> #[trigger] v.committed(block, states, receipts, traces).commit_at(
                n,
            ) == v.commit_at(n),
{
    let w = v.committed(block, states, receipts, traces);
    assert forall|n: int| n != block.number() implies #[trigger] w.commit_at(n) == v.commit_at(n) by {
        if v.contains(n) {
            let i = n - v.first_block;
            assert(w.blocks[i] == v.blocks[i]);
            assert(w.states[i] == v.states[i]);
            assert(w.receipts[i] == v.receipts[i]);
            assert(w.traces[i] == v.traces[i]);
        }
    }
}

} // verus!
