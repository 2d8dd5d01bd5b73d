use vstd::prelude::*;

use crate::felt::Felt;

verus! {

/// One storage slot written by a block.
#[derive(Clone, Copy, Debug, PartialEq, Eq, Structural)]
pub struct StorageEntry {
    pub contract: Felt,
    pub key: Felt,
    pub value: Felt,
}

/// One value written under a single key (a contract's nonce, a contract's
/// class hash, or a class's compiled hash).
#[derive(Clone, Copy, Debug, PartialEq, Eq, Structural)]
pub struct KeyedFelt {
    pub key: Felt,
    pub value: Felt,
}

/// The state changes made by one block, relative to the state before it.
#[derive(Clone, Debug)]
pub struct StateUpdate {
    pub storage_updates: Vec<StorageEntry>,
    pub nonce_updates: Vec<KeyedFelt>,
    pub contract_updates: Vec<KeyedFelt>,
    pub declared_classes: Vec<KeyedFelt>,
}

/// The value a list of storage writes gives slot `(contract, key)`, if any.
pub open spec fn find_storage(s: Seq<StorageEntry>, contract: Felt, key: Felt) -> Option<Felt>
    decreases s.len(),
{
    if s.len() == 0 {
        None
    } else if s.last().contract == contract && s.last().key == key {
        Some(s.last().value)
    } else {
        find_storage(s.drop_last(), contract, key)
    }
}

/// The value a list of keyed writes gives `key`, if any.
pub open spec fn find_keyed(s: Seq<KeyedFelt>, key: Felt) -> Option<Felt>
    decreases s.len(),
{
    if s.len() == 0 {
        None
    } else if s.last().key == key {
        Some(s.last().value)
    } else {
        find_keyed(s.drop_last(), key)
    }
}

/// Which part of the state a point read is about.
#[derive(Clone, Copy, Debug, PartialEq, Eq, Structural)]
pub enum StateKey {
    Storage(Felt, Felt),
    Nonce(Felt),
    ClassHash(Felt),
}

impl StateUpdate {
    /// The value this diff writes under `k`, if it writes one.
    pub open spec fn written(&self, k: StateKey) -> Option<Felt> {
        match k {
            StateKey::Storage(c, key) => find_storage(self.storage_updates@, c, key),
            StateKey::Nonce(c) => find_keyed(self.nonce_updates@, c),
            StateKey::ClassHash(c) => find_keyed(self.contract_updates@, c),
        }
    }

    pub fn empty() -> (r: StateUpdate)
        ensures
            r.storage_updates@.len() == 0,
            r.nonce_updates@.len() == 0,
            r.contract_updates@.len() == 0,
            r.declared_classes@.len() == 0,
    {
        StateUpdate {
            storage_updates: Vec::new(),
            nonce_updates: Vec::new(),
            contract_updates: Vec::new(),
            declared_classes: Vec::new(),
        }
    }

    /// The value this diff writes under `k`, if it writes one.
    pub fn get(&self, k: StateKey) -> (r: Option<Felt>)
        ensures
            r == self.written(k),
    {
        match k {
            StateKey::Storage(c, key) => storage_get(&self.storage_updates, c, key),
            StateKey::Nonce(c) => keyed_get(&self.nonce_updates, c),
            StateKey::ClassHash(c) => keyed_get(&self.contract_updates, c),
        }
    }
}

pub fn storage_get(s: &Vec<StorageEntry>, contract: Felt, key: Felt) -> (r: Option<Felt>)
    ensures
        r == find_storage(s@, contract, key),
{
    let mut i: usize = s.len();
    assert(s@.take(i as int) == s@);
    while i > 0
        invariant
            i <= s@.len(),
            find_storage(s@, contract, key) == find_storage(s@.take(i as int), contract, key),
        decreases i,
    {
        let e = s[i - 1];
        assert(s@.take(i as int).drop_last() == s@.take(i - 1));
        if e.contract == contract && e.key == key {
            return Some(e.value);
        }
        i = i - 1;
    }
    None
}

pub fn keyed_get(s: &Vec<KeyedFelt>, key: Felt) -> (r: Option<Felt>)
    ensures
        r == find_keyed(s@, key),
{
    let mut i: usize = s.len();
    assert(s@.take(i as int) == s@);
    while i > 0
        invariant
            i <= s@.len(),
            find_keyed(s@, key) == find_keyed(s@.take(i as int), key),
        decreases i,
    {
        let e = s[i - 1];
        assert(s@.take(i as int).drop_last() == s@.take(i - 1));
        if e.key == key {
            return Some(e.value);
        }
        i = i - 1;
    }
    None
}

} // verus!
