use vstd::prelude::*;

use crate::felt::Felt;

verus! {

/// How final a committed block is. Status only ever moves forward:
/// `AcceptedOnL2` then `AcceptedOnL1`.
#[derive(Clone, Copy, Debug, PartialEq, Eq, Structural)]
pub enum FinalityStatus {
    AcceptedOnL2,
    AcceptedOnL1,
}

impl FinalityStatus {
    /// Position of the status in the finality order.
    pub open spec fn rank(self) -> int {
        match self {
            FinalityStatus::AcceptedOnL2 => 0,
            FinalityStatus::AcceptedOnL1 => 1,
        }
    }

    /// A block may keep its status or move to a later one, never an earlier one.
    pub open spec fn allows(self, next: FinalityStatus) -> bool {
        self.rank() <= next.rank()
    }

    pub fn can_transition_to(&self, next: FinalityStatus) -> (r: bool)
        ensures
            r == self.allows(next),
    {
        match (*self, next) {
            (FinalityStatus::AcceptedOnL1, FinalityStatus::AcceptedOnL2) => false,
            _ => true,
        }
    }
}

#[derive(Clone, Copy, Debug, PartialEq, Eq, Structural)]
pub struct Header {
    pub number: u64,
    pub parent_hash: Felt,
    pub timestamp: u64,
    pub sequencer_address: Felt,
}

/// A block as execution produces it: a header and the hashes of its
/// transactions, in order.
#[derive(Clone, Debug)]
pub struct Block {
    pub header: Header,
    pub body: Vec<Felt>,
}

/// A block ready to be committed: sealed with its hash and a finality status.
#[derive(Clone, Debug)]
pub struct SealedBlock {
    pub block: Block,
    pub hash: Felt,
    pub status: FinalityStatus,
}

impl Block {
    pub fn seal_with_hash_and_status(self, hash: Felt, status: FinalityStatus) -> (r: SealedBlock)
        ensures
            r.block == self,
            r.hash == hash,
            r.status == status,
    {
        SealedBlock { block: self, hash, status }
    }
}

impl SealedBlock {
    pub open spec fn number(self) -> u64 {
        self.block.header.number
    }
}

/// Selects a block either by its number or by its hash.
#[derive(Clone, Copy, Debug, PartialEq, Eq, Structural)]
pub enum BlockHashOrNumber {
    Hash(Felt),
    Number(u64),
}

/// The outcome of one transaction.
#[derive(Clone, Copy, Debug, PartialEq, Eq, Structural)]
pub struct Receipt {
    pub transaction_hash: Felt,
    pub reverted: bool,
    pub events_emitted: u64,
    pub gas_consumed: u64,
}

/// The execution trace recorded for one transaction.
#[derive(Clone, Copy, Debug, PartialEq, Eq, Structural)]
pub struct TxTrace {
    pub transaction_hash: Felt,
    pub steps: u64,
}

} // verus!
