use vstd::prelude::*;

use crate::block::{
    BlockHashOrNumber, FinalityStatus, Receipt, SealedBlock, TxTrace,
};
use crate::felt::Felt;
use crate::state::{StateKey, StateUpdate};
use crate::traits::commit_outcome;

verus! {

/// Why a provider call did not go through.
#[derive(Clone, Copy, Debug, PartialEq, Eq, Structural)]
pub enum StorageError {
    /// The block's number does not directly follow the latest committed one.
    InvalidBlockOrder,
    /// The storage engine underneath failed.
    StorageEngineFailure,
    /// The remote chain could not be reached; the read may be retried.
    UpstreamUnavailable,
    /// No committed block has the requested number.
    NotFound,
    /// The requested status would move a block back in finality.
    FinalityRegression,
}

/// The committed history of a provider: block `first_block + i` is
/// `blocks[i]`, committed with `states[i]`, `receipts[i]` and `traces[i]`.
pub struct ProviderView {
    pub first_block: int,
    pub blocks: Seq<SealedBlock>,
    pub states: Seq<StateUpdate>,
    pub receipts: Seq<Seq<Receipt>>,
    pub traces: Seq<Seq<TxTrace>>,
}

/// Everything committed with one block.
pub struct Commit {
    pub block: SealedBlock,
    pub states: StateUpdate,
    pub receipts: Seq<Receipt>,
    pub traces: Seq<TxTrace>,
}

/// The value that the diffs `states[0..=idx]` leave under `k`: the write of
/// the latest of them that touches `k`.
pub open spec fn latest_write(states: Seq<StateUpdate>, k: StateKey, idx: int) -> Option<Felt>
    decreases idx + 1,
{
    if idx < 0 {
        None
    } else {
        match states[idx].written(k) {
            Some(v) => Some(v),
            None => latest_write(states, k, idx - 1),
        }
    }
}

/// Receipt `j` of block index `i` exists and carries `tx_hash`.
pub open spec fn receipt_at(receipts: Seq<Seq<Receipt>>, i: int, j: int, tx_hash: Felt) -> bool {
    0 <= i < receipts.len() && 0 <= j < receipts[i].len() && receipts[i][j].transaction_hash
        == tx_hash
}

/// No receipt before position `(i, j)`, in block order, carries `tx_hash`.
pub open spec fn no_receipt_before(receipts: Seq<Seq<Receipt>>, i: int, j: int, tx_hash: Felt) -> bool {
    forall|a: int, b: int|
        (a < i || (a == i && b < j)) ==> !#[trigger] receipt_at(receipts, a, b, tx_hash)
}

impl ProviderView {
    pub open spec fn len(self) -> int {
        self.blocks.len() as int
    }

    /// The number the next committed block must carry.
    pub open spec fn next_number(self) -> int {
        self.first_block + self.len()
    }

    pub open spec fn wf(self) -> bool {
        &&& 0 <= self.first_block
        &&& self.next_number() <= u64::MAX + 1
        &&& self.states.len() == self.len()
        &&& self.receipts.len() == self.len()
        &&& self.traces.len() == self.len()
        &&& forall|i: int|
            0 <= i < self.len() ==> #[trigger] self.blocks[i].number() == self.first_block + i
    }

    pub open spec fn latest_number(self) -> Option<u64> {
        if self.len() == 0 {
            None
        } else {
            Some((self.next_number() - 1) as u64)
        }
    }

    pub open spec fn contains(self, n: int) -> bool {
        self.first_block <= n < self.next_number()
    }

    pub open spec fn block_at(self, n: int) -> Option<SealedBlock> {
        if self.contains(n) {
            Some(self.blocks[n - self.first_block])
        } else {
            None
        }
    }

    /// Block `n` with its diff, receipts and traces.
    pub open spec fn commit_at(self, n: int) -> Option<Commit> {
        if self.contains(n) {
            let i = n - self.first_block;
            Some(
                Commit {
                    block: self.blocks[i],
                    states: self.states[i],
                    receipts: self.receipts[i],
                    traces: self.traces[i],
                },
            )
        } else {
            None
        }
    }

    /// The value under `k` as of block `n`, counting only this provider's blocks.
    pub open spec fn value_at(self, k: StateKey, n: int) -> Option<Felt> {
        if self.contains(n) {
            latest_write(self.states, k, n - self.first_block)
        } else {
            None
        }
    }

    /// What committing a block numbered `number` returns: the number alone decides.
    pub open spec fn insert_outcome(self, number: int) -> Result<
        (),
        StorageError,
    > {
        commit_outcome(self.next_number(), number)
    }

    /// The history once the block and everything that belongs to it is appended.
    pub open spec fn committed(
        self,
        block: SealedBlock,
        states: StateUpdate,
        receipts: Seq<Receipt>,
        traces: Seq<TxTrace>,
    ) -> ProviderView {
        ProviderView {
            first_block: self.first_block,
            blocks: self.blocks.push(block),
            states: self.states.push(states),
            receipts: self.receipts.push(receipts),
            traces: self.traces.push(traces),
        }
    }

    /// What setting block `n` to `status` returns.
    pub open spec fn status_outcome(self, n: int, status: FinalityStatus) -> Result<
        (),
        StorageError,
    > {
        if !self.contains(n) {
            Err(StorageError::NotFound)
        } else if !self.blocks[n - self.first_block].status.allows(status) {
            Err(StorageError::FinalityRegression)
        } else {
            Ok(())
        }
    }
}

/// A provider that keeps its whole history in process memory.
pub struct InMemoryProvider {
    first_block: u64,
    blocks: Vec<SealedBlock>,
    states: Vec<StateUpdate>,
    receipts: Vec<Vec<Receipt>>,
    traces: Vec<Vec<TxTrace>>,
}

impl View for InMemoryProvider {
    type V = ProviderView;

    closed spec fn view(&self) -> ProviderView {
        ProviderView {
            first_block: self.first_block as int,
            blocks: self.blocks@,
            states: self.states@,
            receipts: self.receipts@.map_values(|r: Vec<Receipt>| r@),
            traces: self.traces@.map_values(|t: Vec<TxTrace>| t@),
        }
    }
}

impl InMemoryProvider {
    /// An empty provider whose first block will be block 0.
    pub fn new() -> (r: InMemoryProvider)
        ensures
            r@.wf(),
            r@.first_block == 0,
            r@.len() == 0,
    {
        Self::starting_at(0)
    }

    /// An empty provider whose first block will be `first_block`.
    pub fn starting_at(first_block: u64) -> (r: InMemoryProvider)
        ensures
            r@.wf(),
            r@.first_block == first_block,
            r@.len() == 0,
    {
        InMemoryProvider {
            first_block,
            blocks: Vec::new(),
            states: Vec::new(),
            receipts: Vec::new(),
            traces: Vec::new(),
        }
    }

    pub fn latest_number(&self) -> (r: Option<u64>)
        requires
            self@.wf(),
        ensures
            r == self@.latest_number(),
    {
        let len = self.blocks.len();
        if len == 0 {
            None
        } else {
            Some(self.first_block + (len - 1) as u64)
        }
    }

    /// Index of block `n` in this provider's history, if it holds that block.
    fn index_of(&self, n: u64) -> (r: Option<usize>)
        requires
            self@.wf(),
        ensures
            match r {
                Some(i) => self@.contains(n as int) && i == n - self@.first_block && i
                    < self.blocks@.len(),
                None => !self@.contains(n as int),
            },
    {
        if n < self.first_block {
            return None;
        }
        let i = n - self.first_block;
        if i < self.blocks.len() as u64 {
            Some(i as usize)
        } else {
            None
        }
    }

    /// The committed block with the given number or hash. Where several blocks
    /// share a hash, the earliest of them.
    pub fn block(&self, id: BlockHashOrNumber) -> (r: Option<&SealedBlock>)
        requires
            self@.wf(),
        ensures
            match id {
                BlockHashOrNumber::Number(n) => match r {
                    Some(b) => self@.block_at(n as int) == Some(*b),
                    None => self@.block_at(n as int) is None,
                },
                BlockHashOrNumber::Hash(h) => match r {
                    Some(b) => exists|i: int|
                        0 <= i < self@.len() && #[trigger] self@.blocks[i] == *b && b.hash == h && forall|
                            j: int,
                        | 0 <= j < i ==> #[trigger] self@.blocks[j].hash != h,
                    None => forall|i: int| 0 <= i < self@.len() ==> #[trigger] self@.blocks[i].hash != h,
                },
            },
    {
        match id {
            BlockHashOrNumber::Number(n) => match self.index_of(n) {
                Some(i) => {
                    assert(self@.blocks == self.blocks@);
                    Some(&self.blocks[i])
                },
                None => None,
            },
            BlockHashOrNumber::Hash(h) => {
                let mut i: usize = 0;
                while i < self.blocks.len()
                    invariant
                        i <= self.blocks@.len(),
                        self@.blocks == self.blocks@,
                        id == BlockHashOrNumber::Hash(h),
                        forall|j: int| 0 <= j < i ==> #[trigger] self.blocks@[j].hash != h,
                    decreases self.blocks@.len() - i,
                {
                    if self.blocks[i].hash == h {
                        assert(self@.blocks[i as int] == self.blocks@[i as int]);
                        return Some(&self.blocks[i]);
                    }
                    i = i + 1;
                }
                None
            },
        }
    }

    /// The value under `k` as of block `n`: what the latest block up to `n`
    /// that touched `k` wrote. `None` where no such block exists or `n` is
    /// not committed here.
    pub fn value_at(&self, k: StateKey, n: u64) -> (r: Option<Felt>)
        requires
            self@.wf(),
        ensures
            r == self@.value_at(k, n as int),
    {
        match self.index_of(n) {
            None => None,
            Some(top) => {
                assert(self@.states == self.states@);
                assert(self.states@.len() == self.blocks@.len());
                assert(self@.value_at(k, n as int) == latest_write(self.states@, k, top as int));
                let mut i: usize = top;
                loop
                    invariant
                        i <= top,
                        top < self.states@.len(),
                        self@.value_at(k, n as int) == latest_write(self.states@, k, i as int),
                    decreases i,
                {
                    match self.states[i].get(k) {
                        Some(v) => {
                            return Some(v);
                        },
                        None => {},
                    }
                    if i == 0 {
                        assert(latest_write(self.states@, k, -1) is None);
                        return None;
                    }
                    i = i - 1;
                }
            },
        }
    }

    /// Reads `k` as of `block`, or as of the latest committed block where
    /// `block` is `None`.
    pub fn state_at(&self, k: StateKey, block: Option<u64>) -> (r: Option<Felt>)
        requires
            self@.wf(),
        ensures
            r == match block {
                Some(n) => self@.value_at(k, n as int),
                None => match self@.latest_number() {
                    Some(n) => self@.value_at(k, n as int),
                    None => None,
                },
            },
    {
        match block {
            Some(n) => self.value_at(k, n),
            None => match self.latest_number() {
                Some(n) => self.value_at(k, n),
                None => None,
            },
        }
    }

    pub fn storage_at(&self, contract: Felt, key: Felt, block: Option<u64>) -> (r: Option<Felt>)
        requires
            self@.wf(),
        ensures
            r == match block {
                Some(n) => self@.value_at(StateKey::Storage(contract, key), n as int),
                None => match self@.latest_number() {
                    Some(n) => self@.value_at(StateKey::Storage(contract, key), n as int),
                    None => None,
                },
            },
    {
        self.state_at(StateKey::Storage(contract, key), block)
    }

    pub fn nonce_at(&self, contract: Felt, block: Option<u64>) -> (r: Option<Felt>)
        requires
            self@.wf(),
        ensures
            r == match block {
                Some(n) => self@.value_at(StateKey::Nonce(contract), n as int),
                None => match self@.latest_number() {
                    Some(n) => self@.value_at(StateKey::Nonce(contract), n as int),
                    None => None,
                },
            },
    {
        self.state_at(StateKey::Nonce(contract), block)
    }

    pub fn class_hash_at(&self, contract: Felt, block: Option<u64>) -> (r: Option<Felt>)
        requires
            self@.wf(),
        ensures
            r == match block {
                Some(n) => self@.value_at(StateKey::ClassHash(contract), n as int),
                None => match self@.latest_number() {
                    Some(n) => self@.value_at(StateKey::ClassHash(contract), n as int),
                    None => None,
                },
            },
    {
        self.state_at(StateKey::ClassHash(contract), block)
    }

    /// The receipts committed with block `n`.
    pub fn receipts(&self, n: u64) -> (r: Option<&Vec<Receipt>>)
        requires
            self@.wf(),
        ensures
            match r {
                Some(v) => self@.contains(n as int) && v@ == self@.receipts[n - self@.first_block],
                None => !self@.contains(n as int),
            },
    {
        match self.index_of(n) {
            Some(i) => Some(&self.receipts[i]),
            None => None,
        }
    }

    /// The finality status of block `n`.
    pub fn block_status(&self, n: u64) -> (r: Option<FinalityStatus>)
        requires
            self@.wf(),
        ensures
            r == (match self@.block_at(n as int) {
                Some(b) => Some(b.status),
                None => None,
            }),
    {
        match self.index_of(n) {
            Some(i) => Some(self.blocks[i].status),
            None => None,
        }
    }

    /// The receipt of the transaction with hash `tx_hash`. Where several
    /// receipts carry that hash, the first one in block order.
    pub fn receipt(&self, tx_hash: Felt) -> (r: Option<&Receipt>)
        requires
            self@.wf(),
        ensures
            match r {
                Some(rc) => exists|i: int, j: int|
                    receipt_at(self@.receipts, i, j, tx_hash) && #[trigger] self@.receipts[i][j]
                        == *rc && no_receipt_before(self@.receipts, i, j, tx_hash),
                None => no_receipt_before(self@.receipts, self@.receipts.len() as int, 0, tx_hash),
            },
    {
        let mut i: usize = 0;
        while i < self.receipts.len()
            invariant
                i <= self.receipts@.len(),
                self@.receipts == self.receipts@.map_values(|r: Vec<Receipt>| r@),
                no_receipt_before(self@.receipts, i as int, 0, tx_hash),
            decreases self.receipts@.len() - i,
        {
            let list = &self.receipts[i];
            assert(self@.receipts[i as int] == list@);
            let mut j: usize = 0;
            while j < list.len()
                invariant
                    i < self.receipts@.len(),
                    j <= list@.len(),
                    self@.receipts == self.receipts@.map_values(|r: Vec<Receipt>| r@),
                    self@.receipts[i as int] == list@,
                    no_receipt_before(self@.receipts, i as int, j as int, tx_hash),
                decreases list@.len() - j,
            {
                if list[j].transaction_hash == tx_hash {
                    assert(receipt_at(self@.receipts, i as int, j as int, tx_hash));
                    assert(self@.receipts[i as int][j as int] == list[j as int]);
                    return Some(&list[j]);
                }
                j = j + 1;
            }
            i = i + 1;
        }
        None
    }

    /// Commits a block together with its state diff, receipts and traces, all
    /// at once or not at all.
    pub fn insert_block_with_states_and_receipts(
        &mut self,
        block: SealedBlock,
        states: StateUpdate,
        receipts: Vec<Receipt>,
        traces: Vec<TxTrace>,
    ) -> (r: Result<(), StorageError>)
        requires
            old(self)@.wf(),
        ensures
            final(self)@.wf(),
            r == old(self)@.insert_outcome(block.number() as int),
            r is Ok ==> final(self)@ == old(self)@.committed(block, states, receipts@, traces@),
            r is Err ==> final(self)@ == old(self)@,
    {
        let number = block.block.header.number;
        if number < self.first_block || number - self.first_block != self.blocks.len() as u64 {
            return Err(StorageError::InvalidBlockOrder);
        }
        let ghost prev = self@;
        self.blocks.push(block);
        self.states.push(states);
        self.receipts.push(receipts);
        self.traces.push(traces);
        assert(self@.receipts == prev.receipts.push(receipts@));
        assert(self@.traces == prev.traces.push(traces@));
        Ok(())
    }

    /// Moves block `n` to finality `status`; a move back is refused.
    pub fn set_finality_status(&mut self, n: u64, status: FinalityStatus) -> (r: Result<
        (),
        StorageError,
    >)
        requires
            old(self)@.wf(),
        ensures
            final(self)@.wf(),
            r == old(self)@.status_outcome(n as int, status),
            r is Ok ==> final(self)@ == (ProviderView {
                blocks: old(self)@.blocks.update(
                    n - old(self)@.first_block,
                    SealedBlock { status, ..old(self)@.blocks[n - old(self)@.first_block] },
                ),
                ..old(self)@
            }),
            r is Err ==> final(self)@ == old(self)@,
    {
        match self.index_of(n) {
            None => Err(StorageError::NotFound),
            Some(i) => {
                if !self.blocks[i].status.can_transition_to(status) {
                    return Err(StorageError::FinalityRegression);
                }
                let ghost prev = self@;
                self.blocks[i].status = status;
                assert(self@.blocks == prev.blocks.update(
                    i as int,
                    SealedBlock { status, ..prev.blocks[i as int] },
                ));
                assert forall|j: int| 0 <= j < self@.len() implies #[trigger] self@.blocks[j].number()
                    == self@.first_block + j by {
                    assert(prev.blocks[j].number() == prev.first_block + j);
                }
                Ok(())
            },
        }
    }
}

/// Appending a diff leaves every value read at an earlier index as it was.
pub proof fn lemma_latest_write_push(states: Seq<StateUpdate>, u: StateUpdate, k: StateKey, idx: int)
    requires
        idx < states.len(),
    ensures
        latest_write(states.push(u), k, idx) == latest_write(states, k, idx),
    decreases idx + 1,
{
    if idx >= 0 {
        assert(states.push(u)[idx] == states[idx]);
        lemma_latest_write_push(states, u, k, idx - 1);
    }
}

/// After a successful commit, the latest number is that of the block just
/// committed, and the history stays well formed.
pub proof fn lemma_latest_is_last_committed(
    v: ProviderView,
    block: SealedBlock,
    states: StateUpdate,
    receipts: Seq<Receipt>,
    traces: Seq<TxTrace>,
)
    requires
        v.wf(),
        v.insert_outcome(block.number() as int) is Ok,
    ensures
        v.committed(block, states, receipts, traces).wf(),
        v.committed(block, states, receipts, traces).latest_number() == Some(block.number()),
{
    let w = v.committed(block, states, receipts, traces);
    assert forall|i: int| 0 <= i < w.len() implies #[trigger] w.blocks[i].number() == w.first_block
        + i by {
        if i < v.len() {
            assert(w.blocks[i] == v.blocks[i]);
        }
    }
}

/// In a history that starts at block 0, every block from 0 to the latest one
/// can be read back by its number, and carries that number.
pub proof fn lemma_every_block_retrievable(v: ProviderView, n: int)
    requires
        v.wf(),
        v.first_block == 0,
        v.latest_number() is Some,
        0 <= n <= v.latest_number()->0,
    ensures
        v.block_at(n) is Some,
        v.block_at(n)->0.number() == n,
{
}

/// A block whose number does not follow the latest committed one is refused
/// with `InvalidBlockOrder`, whatever its diff.
pub proof fn lemma_out_of_order_rejected(v: ProviderView, number: int)
    requires
        number != v.next_number(),
    ensures
        v.insert_outcome(number) == Err::<(), StorageError>(StorageError::InvalidBlockOrder),
{
}

/// Once block `N` writes `value` under `k`, a read of `k` at `N` sees `value`,
/// and a read at `N - 1` sees what it saw before the commit.
pub proof fn lemma_historical_versioning(
    v: ProviderView,
    block: SealedBlock,
    states: StateUpdate,
    receipts: Seq<Receipt>,
    traces: Seq<TxTrace>,
    k: StateKey,
    value: Felt,
)
    requires
        v.wf(),
        v.insert_outcome(block.number() as int) is Ok,
        states.written(k) == Some(value),
    ensures
        v.committed(block, states, receipts, traces).value_at(k, block.number() as int) == Some(
            value,
        ),
        v.committed(block, states, receipts, traces).value_at(k, block.number() - 1) == v.value_at(
            k,
            block.number() - 1,
        ),
{
    let w = v.committed(block, states, receipts, traces);
    assert(w.states[v.len()] == states);
    if v.len() > 0 {
        lemma_latest_write_push(v.states, states, k, v.len() - 1);
    }
}

/// A block accepted on L1 cannot be moved back to accepted on L2.
pub proof fn lemma_finality_never_regresses(v: ProviderView, n: int)
    requires
        v.contains(n),
        v.blocks[n - v.first_block].status == FinalityStatus::AcceptedOnL1,
    ensures
        v.status_outcome(n, FinalityStatus::AcceptedOnL2) == Err::<(), StorageError>(
            StorageError::FinalityRegression,
        ),
{
}

/// A commit never changes what a read of an already committed block sees:
/// that block and every value as of it are the same before and after it, so
/// a reader sees either the history before the commit or the one after it.
pub proof fn lemma_commit_keeps_committed_reads(
    v: ProviderView,
    block: SealedBlock,
    states: StateUpdate,
    receipts: Seq<Receipt>,
    traces: Seq<TxTrace>,
    k: StateKey,
    n: int,
)
    requires
        v.wf(),
        v.contains(n),
    ensures
        v.committed(block, states, receipts, traces).block_at(n) == v.block_at(n),
        v.committed(block, states, receipts, traces).value_at(k, n) == v.value_at(k, n),
{
    let w = v.committed(block, states, receipts, traces);
    assert(w.blocks[n - v.first_block] == v.blocks[n - v.first_block]);
    lemma_latest_write_push(v.states, states, k, n - v.first_block);
}

} // verus!
