//! What a Raft node keeps, on stable storage and in memory.

pub mod state;
pub mod state_machine;
