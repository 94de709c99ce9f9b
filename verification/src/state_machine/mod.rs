//! Generic behaviour for the state machine that a Raft cluster replicates.

pub mod impls;

use vstd::prelude::*;

verus! {

/// A state machine that accepts a command that mutates it, or a query that
/// only reads from it, and that can give a snapshot of its state from which
/// it can be restored.
pub trait StateMachine {
    /// A command that only queries the state machine.
    type QueryCommand;
    /// A command that may mutate the state machine.
    type MutationCommand;
    /// What the state machine answers to a query or a mutation.
    type Response;
    /// A representation of the state machine's state.
    type Snapshot;
    /// Why a command failed.
    type Error;

    /// Apply a command to the state machine.
    fn apply(&mut self, command: Self::MutationCommand) -> Result<Self::Response, Self::Error>;

    /// Query the state machine for some data.
    fn query(&self, command: Self::QueryCommand) -> Result<Self::Response, Self::Error>;

    /// Capture the snapshot of the state machine at a point in time.
    fn snapshot(&self) -> Result<Self::Snapshot, Self::Error>;

    /// Restore the state machine from a snapshot.
    fn restore_from_snapshot(&mut self, snapshot: Self::Snapshot) -> Result<(), Self::Error>;
}

} // verus!
