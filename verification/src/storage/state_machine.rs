//! A key-value storage that collects mutations before it commits them.

use vstd::prelude::*;
use std::collections::HashMap;

verus! {

/// Commits what was collected.
pub trait Commit<E> {
    fn commit(&self) -> Result<(), E>;
}

/// A key-value storage: where it is kept, the mutations not yet committed,
/// and the current state.
#[derive(Clone, Debug)]
pub struct KeyValueStorage<K, V> {
    pub storage_path: String,
    pub uncommitted_mutations: Vec<Mutation<K, V>>,
    pub state: HashMap<K, V>,
}

/// A change to a key-value storage.
#[derive(Clone, Debug)]
pub enum Mutation<K, V> {
    SET(SetCommand<K, V>),
    DELETE(DeleteCommand<K>),
}

/// Assigns a value to a key.
#[derive(Clone, Debug)]
pub struct SetCommand<K, V> {
    pub key: K,
    pub value: V,
}

/// Removes a key.
#[derive(Clone, Debug)]
pub struct DeleteCommand<K> {
    pub key: K,
}

/// The mutations of one commit, stamped with the instant it was made at.
#[derive(Debug)]
pub struct CommitLog<K, V> {
    pub mutations: Vec<Mutation<K, V>>,
    pub instant: std::time::Instant,
}

/// The operations of a key-value storage.
pub trait KeyValueTrait<K, V> {
    fn set(&self, key: K, value: V) -> Option<V>;

    fn get(&self, key: K) -> Option<V>;

    fn delete(&self, key: K) -> Option<V>;

    fn list(&self) -> Option<Vec<(K, V)>>;
}

impl<K, V> KeyValueStorage<K, V> {
    /// An empty storage at `storage_path`, with nothing to commit.
    pub fn new(storage_path: String) -> (storage: Self)
        ensures
            storage.storage_path == storage_path,
            storage.uncommitted_mutations@ == Seq::<Mutation<K, V>>::empty(),
            storage.state@ == Map::<K, V>::empty(),
    {
        KeyValueStorage { storage_path, uncommitted_mutations: Vec::new(), state: HashMap::new() }
    }

    /// Applying changes nothing: the storage is left as it was.
    pub fn apply(&mut self)
        ensures
            *final(self) == *old(self),
    {
    }
}

} // verus!
