use vstd::prelude::*;

use crate::block::{BlockHashOrNumber, FinalityStatus, Receipt, SealedBlock, TxTrace};
use crate::felt::Felt;
use crate::provider::{InMemoryProvider, ProviderView, StorageError};
use crate::state::{StateKey, StateUpdate};

verus! {

/// A value read from the remote chain: `value` is what it held under `key`
/// at block `block`.
#[derive(Clone, Copy, Debug, PartialEq, Eq, Structural)]
pub struct CacheEntry {
    pub key: StateKey,
    pub block: u64,
    pub value: Option<Felt>,
}

/// Why a remote read failed.
#[derive(Clone, Copy, Debug, PartialEq, Eq, Structural)]
pub enum RemoteError {
    Unreachable,
    TimedOut,
}

/// How a read is to be answered.
#[derive(Clone, Copy, Debug, PartialEq, Eq, Structural)]
pub enum ReadPlan {
    /// The answer is known without asking the remote chain.
    Done(Option<Felt>),
    /// The remote chain must be asked for `key` as of the given block.
    Fetch(StateKey, u64),
}

/// Where a block of a forked chain comes from.
#[derive(Clone, Copy, Debug, PartialEq, Eq, Structural)]
pub enum BlockSource {
    /// At or below the fork point: the remote chain holds it.
    Remote,
    /// Above the fork point and committed locally.
    Local,
    /// Above the latest block.
    Missing,
}

/// The answer to a block read on a forked chain.
#[derive(Debug)]
pub enum ForkBlock<'a> {
    /// At or below the fork point: the remote chain serves this block number.
    Remote(u64),
    /// A locally committed block.
    Local(&'a SealedBlock),
    /// Above the latest block: no such block.
    Missing,
}

/// The remote value that the cache holds for `key` at `block`; the latest
/// entry counts.
pub open spec fn cached(cache: Seq<CacheEntry>, key: StateKey, block: int) -> Option<Option<Felt>>
    decreases cache.len(),
{
    if cache.len() == 0 {
        None
    } else if cache.last().key == key && cache.last().block == block {
        Some(cache.last().value)
    } else {
        cached(cache.drop_last(), key, block)
    }
}

pub struct ForkView {
    pub fork_block: int,
    pub local: ProviderView,
    pub cache: Seq<CacheEntry>,
}

impl ForkView {
    pub open spec fn wf(self) -> bool {
        &&& self.local.wf()
        &&& self.local.first_block == self.fork_block + 1
    }

    pub open spec fn latest_number(self) -> int {
        self.fork_block + self.local.len()
    }

    /// How a read at or below the fork point is answered: from the cache, or
    /// by asking the remote chain.
    pub open spec fn remote_plan(self, key: StateKey, block: int) -> ReadPlan {
        match cached(self.cache, key, block) {
            Some(v) => ReadPlan::Done(v),
            None => ReadPlan::Fetch(key, block as u64),
        }
    }

    /// How a read of `key` as of block `n` is answered. Above the fork point
    /// the latest local write up to `n` wins; where no local block wrote
    /// `key`, the value at the fork point stands. At or below it, the remote
    /// chain is the authority.
    pub open spec fn plan(self, key: StateKey, n: int) -> ReadPlan {
        if n > self.latest_number() {
            ReadPlan::Done(None)
        } else if n > self.fork_block {
            match self.local.value_at(key, n) {
                Some(v) => ReadPlan::Done(Some(v)),
                None => self.remote_plan(key, self.fork_block),
            }
        } else {
            self.remote_plan(key, n)
        }
    }

    /// What handing the remote answer `fetched` for `key` at `block` returns.
    pub open spec fn fetch_outcome(fetched: Result<Option<Felt>, RemoteError>) -> Result<
        Option<Felt>,
        StorageError,
    > {
        match fetched {
            Ok(v) => Ok(v),
            Err(_) => Err(StorageError::UpstreamUnavailable),
        }
    }

    /// The view once the remote answer `fetched` for `key` at `block` is
    /// handled: a value is cached, a failure leaves no trace.
    pub open spec fn after_fetch(
        self,
        key: StateKey,
        block: int,
        fetched: Result<Option<Felt>, RemoteError>,
    ) -> ForkView {
        match fetched {
            Ok(v) => ForkView {
                cache: self.cache.push(CacheEntry { key, block: block as u64, value: v }),
                ..self
            },
            Err(_) => self,
        }
    }
}

/// A provider whose history up to `fork_block_number` is that of a remote
/// chain, read through a cache, and whose later blocks are committed locally.
pub struct ForkedProvider {
    fork_block_number: u64,
    local: InMemoryProvider,
    cache: Vec<CacheEntry>,
}

impl View for ForkedProvider {
    type V = ForkView;

    closed spec fn view(&self) -> ForkView {
        ForkView { fork_block: self.fork_block_number as int, local: self.local@, cache: self.cache@ }
    }
}

fn cache_get(cache: &Vec<CacheEntry>, key: StateKey, block: u64) -> (r: Option<Option<Felt>>)
    ensures
        r == cached(cache@, key, block as int),
{
    let mut i: usize = cache.len();
    assert(cache@.take(i as int) == cache@);
    while i > 0
        invariant
            i <= cache@.len(),
            cached(cache@, key, block as int) == cached(cache@.take(i as int), key, block as int),
        decreases i,
    {
        let e = cache[i - 1];
        assert(cache@.take(i as int).drop_last() == cache@.take(i - 1));
        if e.key == key && e.block == block {
            return Some(e.value);
        }
        i = i - 1;
    }
    None
}

impl ForkedProvider {
    /// A provider forked from the remote chain at `fork_block_number`, with
    /// no local blocks and an empty cache.
    pub fn new(fork_block_number: u64) -> (r: ForkedProvider)
        requires
            fork_block_number < u64::MAX,
        ensures
            r@.wf(),
            r@.fork_block == fork_block_number,
            r@.local.len() == 0,
            r@.cache.len() == 0,
    {
        ForkedProvider {
            fork_block_number,
            local: InMemoryProvider::starting_at(fork_block_number + 1),
            cache: Vec::new(),
        }
    }

    pub fn fork_block_number(&self) -> (r: u64)
        ensures
            r == self@.fork_block,
    {
        self.fork_block_number
    }

    /// The locally committed blocks, those above the fork point.
    pub fn local(&self) -> (r: &InMemoryProvider)
        ensures
            r@ == self@.local,
    {
        &self.local
    }

    pub fn latest_number(&self) -> (r: u64)
        requires
            self@.wf(),
        ensures
            r == self@.latest_number(),
    {
        match self.local.latest_number() {
            Some(n) => n,
            None => self.fork_block_number,
        }
    }

    pub fn block_source(&self, n: u64) -> (r: BlockSource)
        requires
            self@.wf(),
        ensures
            r == (if n <= self@.fork_block {
                BlockSource::Remote
            } else if n <= self@.latest_number() {
                BlockSource::Local
            } else {
                BlockSource::Missing
            }),
    {
        if n <= self.fork_block_number {
            BlockSource::Remote
        } else if n <= self.latest_number() {
            BlockSource::Local
        } else {
            BlockSource::Missing
        }
    }

    /// Reads block `n`: a local block directly; one at or below the fork
    /// point is to be fetched from the remote chain by its number.
    pub fn block(&self, n: u64) -> (r: ForkBlock<'_>)
        requires
            self@.wf(),
        ensures
            match r {
                ForkBlock::Remote(m) => m == n && n <= self@.fork_block,
                ForkBlock::Local(b) => self@.local.block_at(n as int) == Some(*b),
                ForkBlock::Missing => n > self@.latest_number(),
            },
    {
        if n <= self.fork_block_number {
            return ForkBlock::Remote(n);
        }
        match self.local.block(BlockHashOrNumber::Number(n)) {
            Some(b) => ForkBlock::Local(b),
            None => ForkBlock::Missing,
        }
    }

    fn remote_plan(&self, key: StateKey, block: u64) -> (r: ReadPlan)
        ensures
            r == self@.remote_plan(key, block as int),
    {
        match cache_get(&self.cache, key, block) {
            Some(v) => ReadPlan::Done(v),
            None => ReadPlan::Fetch(key, block),
        }
    }

    /// Decides how a read of `key` as of block `n` is answered.
    pub fn plan_read(&self, key: StateKey, n: u64) -> (r: ReadPlan)
        requires
            self@.wf(),
        ensures
            r == self@.plan(key, n as int),
    {
        if n > self.latest_number() {
            ReadPlan::Done(None)
        } else if n > self.fork_block_number {
            match self.local.value_at(key, n) {
                Some(v) => ReadPlan::Done(Some(v)),
                None => self.remote_plan(key, self.fork_block_number),
            }
        } else {
            self.remote_plan(key, n)
        }
    }

    /// Takes the remote chain's answer for `key` at `block`. A value is cached
    /// and returned; a failure is reported as `UpstreamUnavailable` and not
    /// cached, so that a later read asks again.
    pub fn complete_fetch(
        &mut self,
        key: StateKey,
        block: u64,
        fetched: Result<Option<Felt>, RemoteError>,
    ) -> (r: Result<Option<Felt>, StorageError>)
        requires
            old(self)@.wf(),
            block <= old(self)@.fork_block,
        ensures
            final(self)@.wf(),
            r == ForkView::fetch_outcome(fetched),
            final(self)@ == old(self)@.after_fetch(key, block as int, fetched),
    {
        match fetched {
            Ok(v) => {
                self.cache.push(CacheEntry { key, block, value: v });
                Ok(v)
            },
            Err(_) => Err(StorageError::UpstreamUnavailable),
        }
    }

    /// Reads `key` as of block `n`, asking the remote chain through `fetch`
    /// only where neither the local blocks nor the cache answer.
    pub fn read<F: Fn(StateKey, u64) -> Result<Option<Felt>, RemoteError>>(
        &mut self,
        key: StateKey,
        n: u64,
        fetch: &F,
    ) -> (r: Result<Option<Felt>, StorageError>)
        requires
            old(self)@.wf(),
            forall|k: StateKey, b: u64| fetch.requires((k, b)),
        ensures
            final(self)@.wf(),
            match old(self)@.plan(key, n as int) {
                ReadPlan::Done(v) => r == Ok::<Option<Felt>, StorageError>(v) && final(self)@ == old(
                    self,
                )@,
                ReadPlan::Fetch(k, b) => exists|fetched: Result<Option<Felt>, RemoteError>|
                    fetch.ensures((k, b), fetched) && r == ForkView::fetch_outcome(fetched)
                        && #[trigger] old(self)@.after_fetch(k, b as int, fetched) == final(self)@,
            },
    {
        match self.plan_read(key, n) {
            ReadPlan::Done(v) => Ok(v),
            ReadPlan::Fetch(k, b) => {
                let fetched = fetch(k, b);
                self.complete_fetch(k, b, fetched)
            },
        }
    }

    /// Commits a block above the fork point; a block at or below it is refused
    /// with `InvalidBlockOrder`, as is any block that does not follow the latest.
    pub fn insert_block_with_states_and_receipts(
        &mut self,
        block: SealedBlock,
        states: StateUpdate,
        receipts: Vec<Receipt>,
        traces: Vec<TxTrace>,
    ) -> (r: Result<(), StorageError>)
        requires
            old(self)@.wf(),
        ensures
            final(self)@.wf(),
            r == old(self)@.local.insert_outcome(block.number() as int),
            r is Ok ==> final(self)@ == (ForkView {
                local: old(self)@.local.committed(block, states, receipts@, traces@),
                ..old(self)@
            }),
            r is Err ==> final(self)@ == old(self)@,
    {
        self.local.insert_block_with_states_and_receipts(block, states, receipts, traces)
    }

    /// Moves local block `n` to finality `status`; a move back is refused.
    pub fn set_finality_status(&mut self, n: u64, status: FinalityStatus) -> (r: Result<
        (),
        StorageError,
    >)
        requires
            old(self)@.wf(),
        ensures
            final(self)@.wf(),
            r == old(self)@.local.status_outcome(n as int, status),
            final(self)@.fork_block == old(self)@.fork_block,
            final(self)@.cache == old(self)@.cache,
            r is Ok ==> final(self)@.local == (ProviderView {
                blocks: old(self)@.local.blocks.update(
                    n - old(self)@.local.first_block,
                    SealedBlock { status, ..old(self)@.local.blocks[n - old(self)@.local.first_block] },
                ),
                ..old(self)@.local
            }),
            r is Err ==> final(self)@ == old(self)@,
    {
        self.local.set_finality_status(n, status)
    }
}

/// Blocks at or below the fork point cannot be written: they belong to the
/// remote chain.
pub proof fn lemma_fork_region_immutable(v: ForkView, number: int)
    requires
        v.wf(),
        number <= v.fork_block,
    ensures
        v.local.insert_outcome(number) == Err::<(), StorageError>(
            StorageError::InvalidBlockOrder,
        ),
{
}

/// Once the remote value of `key` at a block at or below the fork point has
/// been fetched, a read there is answered from the cache with that value,
/// without asking the remote chain again.
pub proof fn lemma_remote_read_cached(
    v: ForkView,
    key: StateKey,
    n: int,
    value: Option<Felt>,
)
    requires
        v.wf(),
        0 <= n <= v.fork_block,
    ensures
        v.after_fetch(key, n, Ok(value)).plan(key, n) == ReadPlan::Done(value),
{
}

/// Above the fork point, a value that a local block wrote shadows the remote
/// one: a read at that block returns the local write.
pub proof fn lemma_local_write_shadows_remote(v: ForkView, key: StateKey, n: int, value: Felt)
    requires
        v.wf(),
        v.local.contains(n),
        v.local.states[n - v.local.first_block].written(key) == Some(value),
    ensures
        v.plan(key, n) == ReadPlan::Done(Some(value)),
{
}

} // verus!
