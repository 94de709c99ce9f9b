//! The state machine that a Raft node replicates, and its key-value store.

pub use crate::state_machine::StateMachine;
pub use crate::state_machine::impls::key_value_store::{
    DeleteCommand, GetCommand, KeyValueStore, MutationCommand, PutCommand, QueryCommand, Response,
};
