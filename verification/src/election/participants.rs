//! The election roles of a server and its persistent and volatile state.

use vstd::prelude::*;
use std::collections::HashMap;

verus! {

/// The role of a server in an election.
#[derive(Clone, Copy, Debug, PartialEq, Eq)]
pub enum Election {
    Follower,
    Candidate,
    Leader,
}

impl Default for Election {
    /// Servers start as followers.
    fn default() -> (e: Self)
        ensures
            e == Election::Follower,
    {
        Election::Follower
    }
}

pub type StateMachineCommand = String;

/// A log record: the command and the term in which it was received.
pub type LogRecord = (StateMachineCommand, usize);

/// Updated on stable storage before responding to RPCs.
#[derive(Clone, Debug, PartialEq, Eq)]
pub struct PersistentState {
    /// The kind of the election entity that the current node is assigned.
    pub participant_type: Election,
    /// The latest term the server has seen (0 on first boot, increases monotonically).
    pub current_term: usize,
    /// The candidate that received this server's vote in the current term, if any.
    pub voted_for: Option<usize>,
    /// The log entries, each with a command for the state machine and the term
    /// when the entry was received by the leader.
    pub log: Vec<LogRecord>,
}

impl Default for PersistentState {
    /// A follower in term 0 that has not voted and has an empty log.
    fn default() -> (s: Self)
        ensures
            s.participant_type == Election::Follower,
            s.current_term == 0,
            s.voted_for == None::<usize>,
            s.log@ == Seq::<LogRecord>::empty(),
    {
        PersistentState {
            current_term: 0,
            voted_for: None,
            log: Vec::new(),
            participant_type: Election::Follower,
        }
    }
}

/// Volatile state on all servers. `next_index` and `match_index` are only
/// kept by leaders, and are `None` on the others.
#[derive(Debug, Clone)]
pub struct VolatileState {
    /// The index of the highest log entry known to be committed.
    pub commit_index: usize,
    /// The index of the highest log entry applied to the state machine.
    pub last_applied: usize,
    /// For each server, the index of the next log entry to send to it.
    pub next_index: Option<HashMap<usize, usize>>,
    /// For each server, the index of the highest log entry known to be replicated on it.
    pub match_index: Option<HashMap<usize, usize>>,
}

impl Default for VolatileState {
    /// Both indices at 0, and no tables.
    fn default() -> (s: Self)
        ensures
            s.commit_index == 0,
            s.last_applied == 0,
            s.next_index is None,
            s.match_index is None,
    {
        VolatileState { commit_index: 0, last_applied: 0, next_index: None, match_index: None }
    }
}

/// The time, in seconds, that a follower waits for receiving communication
/// from a leader or candidate.
pub const ELECTION_TIMEOUT: usize = 1;

} // verus!
