//! A key-value store and its state-machine adaptation.

pub mod parse;

use vstd::prelude::*;
use std::collections::HashMap;
use std::hash::Hash;
use vstd::std_specs::hash::obeys_key_model;
use crate::state_machine::StateMachine;

verus! {

/// A key-value store: each key maps to at most one value.
#[derive(Debug, Clone)]
pub struct KeyValueStore<K, V> {
    inner: HashMap<K, V>,
}

/// A command to retrieve the value of a key.
#[derive(Debug, Clone, PartialEq, Eq)]
pub struct GetCommand<K> {
    pub key: K,
}

/// A command that may change the store.
#[derive(Debug, Clone, PartialEq, Eq)]
pub enum MutationCommand<K, V> {
    PUT(PutCommand<K, V>),
    DELETE(DeleteCommand<K>),
}

/// A command that only reads the store.
#[derive(Debug, Clone, PartialEq, Eq)]
pub enum QueryCommand<K> {
    GET(GetCommand<K>),
}

/// A command to assign a value to a key.
#[derive(Debug, Clone, PartialEq, Eq)]
pub struct PutCommand<K, V> {
    pub key: K,
    pub value: V,
}

/// A command to delete a key.
#[derive(Debug, Clone, PartialEq, Eq)]
pub struct DeleteCommand<K> {
    pub key: K,
}

/// The value that a command returns.
#[derive(Debug, Clone, PartialEq, Eq)]
pub struct Response<V> {
    pub value: V,
}

/// A command is something that the state machine receives and processes.
#[derive(Debug, Clone, PartialEq, Eq)]
pub enum Command<K, V> {
    /// A command to retrieve the value corresponding to a given key.
    GET(GetCommand<K>),
    /// A command to assign a given value to a given key. If the key previously
    /// exists, it returns the previously assigned value.
    PUT(PutCommand<K, V>),
    /// A command to delete a key.
    DELETE(DeleteCommand<K>),
}

/// Why a command on the store failed; each carries the key concerned.
#[derive(Debug, Clone, PartialEq, Eq)]
pub enum StoreError<K> {
    /// A read of a key that the store does not hold.
    NoSuchKey(K),
    /// A put of a key that the store did not hold; the value is stored all the same.
    KeyWasNotPresent(K),
    /// A delete of a key that the store does not hold.
    KeyDoesNotExist(K),
}

impl<K, V> KeyValueStore<K, V> {
    /// What the store holds: a map from keys to values.
    pub closed spec fn contents(&self) -> Map<K, V> {
        self.inner@
    }

    /// A new empty store.
    pub fn new() -> (store: Self)
        ensures
            store.contents() == Map::<K, V>::empty(),
    {
        KeyValueStore { inner: HashMap::new() }
    }

    /// A new empty store.
    pub fn empty() -> (store: Self)
        ensures
            store.contents() == Map::<K, V>::empty(),
    {
        Self::new()
    }
}

impl<K: Hash + Eq + Clone, V: Clone> KeyValueStore<K, V> {
    /// Given a key, gets its value from the store, or fails if the store does
    /// not hold the key.
    pub fn get(&self, key: K) -> (result: Result<V, StoreError<K>>)
        ensures
            obeys_key_model::<K>() ==> match result {
                Ok(value) => self.contents().contains_key(key) && cloned::<V>(
                    self.contents()[key],
                    value,
                ),
                Err(e) => !self.contents().contains_key(key) && e == StoreError::NoSuchKey(key),
            },
    {
        match self.inner.get(&key) {
            Some(value) => Ok(value.clone()),
            None => Err(StoreError::NoSuchKey(key)),
        }
    }

    /// Given a key and a value, stores the pair. Returns the value the key had
    /// before, or fails if the key was not present (the pair is stored all
    /// the same).
    pub fn put(&mut self, key: K, value: V) -> (result: Result<V, StoreError<K>>)
        ensures
            obeys_key_model::<K>() ==> {
                &&& final(self).contents() == old(self).contents().insert(key, value)
                &&& match result {
                    Ok(previous) => old(self).contents().contains_key(key) && previous == old(
                        self,
                    ).contents()[key],
                    Err(e) => !old(self).contents().contains_key(key) && (e matches StoreError::<
                        K,
                    >::KeyWasNotPresent(reported) && cloned::<K>(key, reported)),
                }
            },
    {
        let reported = key.clone();
        match self.inner.insert(key, value) {
            Some(previous) => Ok(previous),
            None => Err(StoreError::KeyWasNotPresent(reported)),
        }
    }

    /// Given a key, removes it and its value from the store. Returns the value
    /// it had, or fails if the store did not hold the key.
    pub fn delete(&mut self, key: K) -> (result: Result<V, StoreError<K>>)
        ensures
            obeys_key_model::<K>() ==> {
                &&& final(self).contents() == old(self).contents().remove(key)
                &&& match result {
                    Ok(previous) => old(self).contents().contains_key(key) && previous == old(
                        self,
                    ).contents()[key],
                    Err(e) => !old(self).contents().contains_key(key) && e == StoreError::<
                        K,
                    >::KeyDoesNotExist(key),
                }
            },
    {
        match self.inner.remove(&key) {
            Some(previous) => Ok(previous),
            None => Err(StoreError::KeyDoesNotExist(key)),
        }
    }
}

/// The key that a mutation concerns.
pub open spec fn mutation_key<K, V>(command: MutationCommand<K, V>) -> K {
    match command {
        MutationCommand::PUT(put) => put.key,
        MutationCommand::DELETE(delete) => delete.key,
    }
}

/// What the store holds after a mutation: a put maps its key to its value,
/// a delete removes its key.
pub open spec fn contents_after<K, V>(contents: Map<K, V>, command: MutationCommand<K, V>) -> Map<K, V> {
    match command {
        MutationCommand::PUT(put) => contents.insert(put.key, put.value),
        MutationCommand::DELETE(delete) => contents.remove(delete.key),
    }
}

impl<K: Hash + Eq + Clone, V: Clone> StateMachine for KeyValueStore<K, V> {
    type QueryCommand = QueryCommand<K>;
    type MutationCommand = MutationCommand<K, V>;
    type Response = Response<V>;
    type Snapshot = HashMap<K, V>;
    type Error = StoreError<K>;

    /// Applies a put or a delete. It succeeds, with the value that the key had
    /// before, exactly when the store held the key; a put stores its pair
    /// either way.
    fn apply(&mut self, command: MutationCommand<K, V>) -> (result: Result<Response<V>, StoreError<K>>)
        ensures
            obeys_key_model::<K>() ==> {
                &&& final(self).contents() == contents_after(old(self).contents(), command)
                &&& match result {
                    Ok(response) => old(self).contents().contains_key(mutation_key(command))
                        && response.value == old(self).contents()[mutation_key(command)],
                    Err(e) => !old(self).contents().contains_key(mutation_key(command)) && match command {
                        MutationCommand::PUT(put) => e matches StoreError::<K>::KeyWasNotPresent(k)
                            && cloned::<K>(put.key, k),
                        MutationCommand::DELETE(delete) => e == StoreError::<K>::KeyDoesNotExist(
                            delete.key,
                        ),
                    },
                }
            },
    {
        match command {
            MutationCommand::PUT(cmd) => {
                let value = self.put(cmd.key, cmd.value)?;
                Ok(Response { value })
            },
            MutationCommand::DELETE(cmd) => {
                let value = self.delete(cmd.key)?;
                Ok(Response { value })
            },
        }
    }

    /// Answers a get with (a clone of) the key's value, or fails if the store
    /// does not hold the key.
    fn query(&self, command: QueryCommand<K>) -> (result: Result<Response<V>, StoreError<K>>)
        ensures
            obeys_key_model::<K>() ==> match command {
                QueryCommand::GET(get) => match result {
                    Ok(response) => self.contents().contains_key(get.key) && cloned::<V>(
                        self.contents()[get.key],
                        response.value,
                    ),
                    Err(e) => !self.contents().contains_key(get.key) && e == StoreError::NoSuchKey(
                        get.key,
                    ),
                },
            },
    {
        match command {
            QueryCommand::GET(cmd) => {
                let value = self.get(cmd.key)?;
                Ok(Response { value })
            },
        }
    }

    /// A copy of what the store holds.
    fn snapshot(&self) -> (result: Result<HashMap<K, V>, StoreError<K>>)
        ensures
            result matches Ok(snapshot) && snapshot@ == self.contents(),
    {
        Ok(self.inner.clone())
    }

    /// Replaces what the store holds by the snapshot.
    fn restore_from_snapshot(&mut self, snapshot: HashMap<K, V>) -> (result: Result<(), StoreError<K>>)
        ensures
            result is Ok,
            final(self).contents() == snapshot@,
    {
        self.inner = snapshot;
        Ok(())
    }
}

/// What a read gives back of a write: after a put of a key, the store holds
/// the put value under that key.
pub proof fn lemma_get_after_put<K, V>(contents: Map<K, V>, put: PutCommand<K, V>)
    ensures
        contents_after(contents, MutationCommand::PUT(put)).contains_key(put.key),
        contents_after(contents, MutationCommand::PUT(put))[put.key] == put.value,
{
}

/// After a delete of a key, the store does not hold that key.
pub proof fn lemma_get_after_delete<K, V>(contents: Map<K, V>, delete: DeleteCommand<K>)
    ensures
        !contents_after(contents, MutationCommand::<K, V>::DELETE(delete)).contains_key(delete.key),
{
}

/// A mutation leaves every other key as it was.
pub proof fn lemma_mutation_leaves_other_keys<K, V>(
    contents: Map<K, V>,
    command: MutationCommand<K, V>,
    other: K,
)
    requires
        other != mutation_key(command),
    ensures
        contents_after(contents, command).contains_key(other) == contents.contains_key(other),
        contents.contains_key(other) ==> contents_after(contents, command)[other] == contents[other],
{
}

/// Putting a key that the store did not hold and then deleting it gives back
/// the store as it was.
pub proof fn lemma_delete_undoes_new_put<K, V>(contents: Map<K, V>, put: PutCommand<K, V>)
    requires
        !contents.contains_key(put.key),
    ensures
        contents_after(
            contents_after(contents, MutationCommand::PUT(put)),
            MutationCommand::DELETE(DeleteCommand { key: put.key }),
        ) == contents,
{
    assert(contents_after(
        contents_after(contents, MutationCommand::PUT(put)),
        MutationCommand::DELETE(DeleteCommand { key: put.key }),
    ) =~= contents);
}

/// Putting a key twice leaves the store as putting only the second value.
pub proof fn lemma_second_put_wins<K, V>(contents: Map<K, V>, key: K, first: V, second: V)
    ensures
        contents_after(
            contents_after(contents, MutationCommand::PUT(PutCommand { key, value: first })),
            MutationCommand::PUT(PutCommand { key, value: second }),
        ) == contents_after(contents, MutationCommand::PUT(PutCommand { key, value: second })),
{
    assert(contents_after(
        contents_after(contents, MutationCommand::PUT(PutCommand { key, value: first })),
        MutationCommand::PUT(PutCommand { key, value: second }),
    ) =~= contents_after(contents, MutationCommand::PUT(PutCommand { key, value: second })));
}

} // verus!
