//! The participants of an election and the state they keep.

pub mod participants;

pub use participants::{Election, LogRecord, PersistentState, StateMachineCommand, VolatileState};
