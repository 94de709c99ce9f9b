//! The RPCs that a Raft node answers: what each one decides and how it
//! changes the node's state.

pub mod append_entries;
pub mod diagnostic;
pub mod heartbeat;
pub mod request_vote;
