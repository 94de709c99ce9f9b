//! Storage of a node's state.

pub mod codec;
pub mod state_machine;
