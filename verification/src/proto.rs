//! The messages that Raft nodes exchange.

use vstd::prelude::*;
use vstd::std_specs::convert::{FromSpec, FromSpecImpl, IntoSpec};

verus! {

/// One replicated log entry as it travels in an RPC: the term in which the
/// leader received it and the state-machine command it carries.
#[derive(Clone, Debug, PartialEq, Eq, Default)]
pub struct LogEntry {
    pub term: u64,
    pub command: Vec<u8>,
}

/// Invoked by the leader to replicate log entries.
#[derive(Clone, Debug, PartialEq, Eq, Default)]
pub struct AppendEntriesRequest {
    /// The election term that the leader node is in.
    pub term: u64,
    /// The ID of the leader so that a follower can redirect clients.
    pub leader_id: u64,
    /// The index of the log entry immediately preceding the new ones.
    pub prev_log_index: u64,
    /// The term of the entry at `prev_log_index`.
    pub prev_log_term: u64,
    /// The log entries to store.
    pub entries: Vec<LogEntry>,
    /// The leader's commit index.
    pub leader_commit_index: u64,
}

/// Returned by candidates and followers when a leader requests to append entries.
#[derive(Clone, Copy, Debug, PartialEq, Eq, Default)]
pub struct AppendEntriesResponse {
    /// The current term, for the leader to update itself.
    pub term: u64,
    /// True if the follower held an entry matching `prev_log_index` and `prev_log_term`.
    pub success: bool,
    /// The term of the earliest conflicting entry, if unsuccessful.
    pub conflicting_term: u64,
    /// The index of the first entry in the conflicting term, if unsuccessful.
    pub conflicting_term_first_index: u64,
}

/// Invoked by the leader to tell the other servers of its leadership.
#[derive(Clone, Copy, Debug, PartialEq, Eq, Default)]
pub struct HeartbeatRequest {
    pub term: u64,
    pub leader_id: u64,
    pub prev_log_index: u64,
    pub prev_log_term: u64,
    pub leader_commit_index: u64,
}

/// Returned by candidates and followers when a leader tells them of its presence.
#[derive(Clone, Copy, Debug, PartialEq, Eq, Default)]
pub struct HeartbeatResponse {
    pub term: u64,
    pub success: bool,
}

/// Invoked by a candidate to gather votes.
#[derive(Clone, Copy, Debug, PartialEq, Eq, Default)]
pub struct VoteRequest {
    /// The election term that the candidate node is in.
    pub term: u64,
    /// The ID of the candidate node that is requesting a vote.
    pub candidate_id: u64,
    /// The index of the candidate's last log entry.
    pub last_log_index: u64,
    /// The term of the candidate's last log entry.
    pub last_log_term: u64,
}

/// Returned by followers when a candidate requests a vote.
#[derive(Clone, Copy, Debug, PartialEq, Eq, Default)]
pub struct VoteResponse {
    /// The election term that the follower node is in.
    pub term: u64,
    /// Whether the follower granted its vote to the candidate.
    pub vote_granted: bool,
}

/// A log entry read from a message: its term, and its command converted
/// with `T::from`.
impl<T: From<Vec<u8>>> From<LogEntry> for (u64, T) {
    fn from(entry: LogEntry) -> (log: (u64, T)) {
        (entry.term, T::from(entry.command))
    }
}

impl<T: From<Vec<u8>>> FromSpecImpl<LogEntry> for (u64, T) {
    open spec fn obeys_from_spec() -> bool {
        T::obeys_from_spec()
    }

    open spec fn from_spec(entry: LogEntry) -> (u64, T) {
        (entry.term, T::from_spec(entry.command))
    }
}

/// A log entry put in a message: its term, and its command converted into
/// bytes.
impl<T: Into<Vec<u8>>> From<(u64, T)> for LogEntry {
    fn from(log: (u64, T)) -> (entry: LogEntry) {
        LogEntry { term: log.0, command: log.1.into() }
    }
}

impl<T: Into<Vec<u8>>> FromSpecImpl<(u64, T)> for LogEntry {
    open spec fn obeys_from_spec() -> bool {
        T::obeys_into_spec()
    }

    open spec fn from_spec(log: (u64, T)) -> LogEntry {
        LogEntry { term: log.0, command: log.1.into_spec() }
    }
}

/// A copy of `bytes`.
pub(crate) fn copy_bytes(bytes: &Vec<u8>) -> (copy: Vec<u8>)
    ensures
        copy@ == bytes@,
{
    let copy = bytes.clone();
    assert(copy@ =~= bytes@);
    copy
}

} // verus!
