use vstd::prelude::*;

use crate::block::{Block, FinalityStatus, Header, SealedBlock};
use crate::felt::Felt;
use crate::provider::{InMemoryProvider, ProviderView, StorageError};
use crate::state::{KeyedFelt, StateUpdate, StorageEntry};

verus! {

/// A contract that exists from block 0 on.
#[derive(Clone, Debug)]
pub struct GenesisAllocation {
    pub address: Felt,
    pub class_hash: Felt,
    pub nonce: Option<Felt>,
    /// Initial storage, as (key, value) pairs.
    pub storage: Vec<KeyedFelt>,
}

/// The initial state of a chain, from which block 0 is derived.
#[derive(Clone, Debug)]
pub struct Genesis {
    pub timestamp: u64,
    pub sequencer_address: Felt,
    pub fee_token_address: Felt,
    /// Classes declared at genesis, as (class hash, compiled class hash).
    pub classes: Vec<KeyedFelt>,
    pub allocations: Vec<GenesisAllocation>,
}

/// The storage writes that one allocation makes.
pub open spec fn allocation_storage(a: GenesisAllocation) -> Seq<StorageEntry> {
    a.storage@.map_values(|e: KeyedFelt| StorageEntry { contract: a.address, key: e.key, value: e.value })
}

/// The storage writes of all allocations, in order.
pub open spec fn genesis_storage(allocs: Seq<GenesisAllocation>) -> Seq<StorageEntry>
    decreases allocs.len(),
{
    if allocs.len() == 0 {
        Seq::empty()
    } else {
        genesis_storage(allocs.drop_last()) + allocation_storage(allocs.last())
    }
}

/// The nonces of the allocations that set one, in order.
pub open spec fn genesis_nonces(allocs: Seq<GenesisAllocation>) -> Seq<KeyedFelt>
    decreases allocs.len(),
{
    if allocs.len() == 0 {
        Seq::empty()
    } else {
        genesis_nonces(allocs.drop_last()) + match allocs.last().nonce {
            Some(n) => seq![KeyedFelt { key: allocs.last().address, value: n }],
            None => Seq::empty(),
        }
    }
}

/// The class hash of every allocated contract, in order.
pub open spec fn genesis_contracts(allocs: Seq<GenesisAllocation>) -> Seq<KeyedFelt> {
    allocs.map_values(|a: GenesisAllocation| KeyedFelt { key: a.address, value: a.class_hash })
}

impl Genesis {
    /// `u` is exactly the state that this genesis describes.
    pub open spec fn describes_state(self, u: StateUpdate) -> bool {
        &&& u.storage_updates@ == genesis_storage(self.allocations@)
        &&& u.nonce_updates@ == genesis_nonces(self.allocations@)
        &&& u.contract_updates@ == genesis_contracts(self.allocations@)
        &&& u.declared_classes@ == self.classes@
    }

    /// `b` is the unsealed block 0 of this genesis.
    pub open spec fn describes_block(self, b: Block) -> bool {
        &&& b.header.number == 0
        &&& b.header.parent_hash == Felt::zero_spec()
        &&& b.header.timestamp == self.timestamp
        &&& b.header.sequencer_address == self.sequencer_address
        &&& b.body@.len() == 0
    }

    /// `b` is block 0 of this genesis, sealed with the zero hash as accepted on L2.
    pub open spec fn describes_sealed(self, b: SealedBlock) -> bool {
        &&& self.describes_block(b.block)
        &&& b.hash == Felt::zero_spec()
        &&& b.status == FinalityStatus::AcceptedOnL2
    }

    /// Block 0, with the zero hash as its parent and no transactions.
    pub fn block(&self) -> (r: Block)
        ensures
            self.describes_block(r),
    {
        Block {
            header: Header {
                number: 0,
                parent_hash: Felt::zero(),
                timestamp: self.timestamp,
                sequencer_address: self.sequencer_address,
            },
            body: Vec::new(),
        }
    }

    /// The state diff of block 0: every allocation's storage, nonce and class
    /// hash, and every declared class.
    pub fn state_updates(&self) -> (r: StateUpdate)
        ensures
            self.describes_state(r),
    {
        let allocs = &self.allocations;
        let mut storage: Vec<StorageEntry> = Vec::new();
        let mut nonces: Vec<KeyedFelt> = Vec::new();
        let mut contracts: Vec<KeyedFelt> = Vec::new();
        let mut i: usize = 0;
        while i < allocs.len()
            invariant
                i <= allocs@.len(),
                storage@ == genesis_storage(allocs@.take(i as int)),
                nonces@ == genesis_nonces(allocs@.take(i as int)),
                contracts@ == genesis_contracts(allocs@.take(i as int)),
            decreases allocs@.len() - i,
        {
            let a = &allocs[i];
            let ghost before = storage@;
            let mut j: usize = 0;
            while j < a.storage.len()
                invariant
                    j <= a.storage@.len(),
                    storage@ == before + allocation_storage(*a).take(j as int),
                decreases a.storage@.len() - j,
            {
                let e = a.storage[j];
                storage.push(StorageEntry { contract: a.address, key: e.key, value: e.value });
                assert(allocation_storage(*a).take(j + 1) == allocation_storage(*a).take(
                    j as int,
                ).push(allocation_storage(*a)[j as int]));
                j = j + 1;
            }
            match a.nonce {
                Some(n) => {
                    nonces.push(KeyedFelt { key: a.address, value: n });
                },
                None => {},
            }
            contracts.push(KeyedFelt { key: a.address, value: a.class_hash });
            assert(allocs@.take(i + 1).drop_last() == allocs@.take(i as int));
            assert(allocation_storage(*a).take(a.storage@.len() as int) == allocation_storage(*a));
            assert(genesis_contracts(allocs@.take(i + 1)) == genesis_contracts(
                allocs@.take(i as int),
            ).push(KeyedFelt { key: a.address, value: a.class_hash }));
            i = i + 1;
        }
        assert(allocs@.take(allocs@.len() as int) == allocs@);
        let mut classes: Vec<KeyedFelt> = Vec::new();
        let mut k: usize = 0;
        while k < self.classes.len()
            invariant
                k <= self.classes@.len(),
                classes@ == self.classes@.take(k as int),
            decreases self.classes@.len() - k,
        {
            classes.push(self.classes[k]);
            assert(self.classes@.take(k + 1) == self.classes@.take(k as int).push(
                self.classes@[k as int],
            ));
            k = k + 1;
        }
        assert(self.classes@.take(self.classes@.len() as int) == self.classes@);
        StateUpdate {
            storage_updates: storage,
            nonce_updates: nonces,
            contract_updates: contracts,
            declared_classes: classes,
        }
    }
}

impl Default for Genesis {
    /// A genesis with no allocations and no classes, at time 0.
    fn default() -> (r: Genesis)
        ensures
            r.allocations@.len() == 0,
            r.classes@.len() == 0,
            r.timestamp == 0,
            r.sequencer_address == Felt::zero_spec(),
            r.fee_token_address == Felt::zero_spec(),
    {
        Genesis {
            timestamp: 0,
            sequencer_address: Felt::zero(),
            fee_token_address: Felt::zero(),
            classes: Vec::new(),
            allocations: Vec::new(),
        }
    }
}

/// Commits block 0 of `genesis` to `provider`. Fails with `InvalidBlockOrder`
/// where the provider already holds a block, so genesis can be applied once.
pub fn insert_genesis(provider: &mut InMemoryProvider, genesis: &Genesis) -> (r: Result<
    (),
    StorageError,
>)
    requires
        old(provider)@.wf(),
    ensures
        final(provider)@.wf(),
        r == (if old(provider)@.next_number() != 0 {
            Err(StorageError::InvalidBlockOrder)
        } else {
            Ok(())
        }),
        r is Ok ==> final(provider)@.first_block == 0 && final(provider)@.len() == 1
            && genesis.describes_sealed(final(provider)@.blocks[0]) && genesis.describes_state(
            final(provider)@.states[0],
        ) && final(provider)@.receipts[0].len() == 0 && final(provider)@.traces[0].len() == 0,
        r is Err ==> final(provider)@ == old(provider)@,
{
    let block = genesis.block().seal_with_hash_and_status(
        Felt::zero(),
        FinalityStatus::AcceptedOnL2,
    );
    let states = genesis.state_updates();
    provider.insert_block_with_states_and_receipts(block, states, Vec::new(), Vec::new())
}

/// Genesis applies once: once block 0 stands in a history that starts at
/// block 0, the next block must carry another number, so a second
/// `insert_genesis` is refused.
pub proof fn lemma_genesis_applies_once(v: ProviderView)
    requires
        v.wf(),
        v.first_block == 0,
        v.len() == 1,
    ensures
        v.next_number() != 0,
        v.insert_outcome(0) == Err::<(), StorageError>(StorageError::InvalidBlockOrder),
{
}

} // verus!
