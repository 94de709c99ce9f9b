use kraft::raft::storage::state::persistent::State;
use kraft::storage::codec::{compress_state, decompress_state, StorageError};
use kraft::storage::state_machine::KeyValueStorage;

#[test]
fn state_test_write_and_read_persistent_state() {
    let persistent_state = State::<String> { current_term: 2, voted_for: Some(3), log: vec![(0, "".to_owned())] };
    // The state is written as msgpack, field by field, then compressed.
    let fields = (persistent_state.current_term, persistent_state.voted_for, persistent_state.log.clone());
    let serialized = rmp_serde::to_vec(&fields).expect("Could not serialize data.");
    let stored = compress_state(&serialized);
    assert_ne!(stored, serialized);
    let observed = decompress_state(&stored).expect("Could not read persistent state");
    assert_eq!(serialized, observed);
    let (current_term, voted_for, log): (usize, Option<usize>, Vec<(u64, String)>) =
        rmp_serde::from_slice(&observed).expect("Could not read persistent state");
    let observed_state = State { current_term, voted_for, log };
    assert_eq!(persistent_state, observed_state, "Persistent state is different from observed state.");
}

#[test]
fn compressed_state_is_a_gzip_stream() {
    let stored = compress_state(b"Some string");
    assert_eq!(&stored[..2], &[0x1f, 0x8b]);
    assert_eq!(decompress_state(&stored).unwrap(), b"Some string".to_vec());
    let empty = compress_state(&[]);
    assert_eq!(decompress_state(&empty).unwrap(), Vec::<u8>::new());
}

#[test]
fn garbage_is_not_stored_state() {
    assert_eq!(decompress_state(b"not gzip at all"), Err(StorageError::Decompression));
}

#[test]
fn key_value_storage_starts_empty_and_apply_changes_nothing() {
    let mut storage: KeyValueStorage<String, usize> = KeyValueStorage::new("/tmp/kv".to_owned());
    storage.apply();
    assert_eq!(storage.storage_path, "/tmp/kv");
    assert!(storage.uncommitted_mutations.is_empty());
    assert!(storage.state.is_empty());
}
