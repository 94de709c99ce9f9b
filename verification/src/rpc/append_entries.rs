//! The AppendEntries RPC between servers.

use vstd::prelude::*;
use crate::election::PersistentState;

verus! {

pub type LogType = String;

/// Invoked by the leader to replicate log entries; also used as heartbeat.
#[derive(Clone, Default, Debug)]
pub struct AppendEntriesRequest {
    /// The leader's term.
    pub term: usize,
    /// Used by followers to redirect clients.
    pub leader_id: usize,
    /// The index of the log entry immediately preceding the new ones.
    pub previous_log_index: usize,
    /// The term of the `previous_log_index` entry.
    pub previous_log_term: usize,
    /// The log entries to store (empty for a heartbeat).
    pub entries: Vec<LogType>,
    /// The leader's commit index.
    pub leader_commit_index: usize,
}

/// Returned by followers.
#[derive(Clone, Copy, Default, Debug, PartialEq, Eq)]
pub struct AppendEntriesResponse {
    /// The current term, for the leader to update itself.
    pub term: usize,
    /// True if the follower held an entry matching `previous_log_index` and
    /// `previous_log_term`.
    pub success: bool,
}

impl AppendEntriesRequest {
    pub fn new(
        term: usize,
        leader_id: usize,
        previous_log_index: usize,
        previous_log_term: usize,
        entries: Vec<LogType>,
        leader_commit_index: usize,
    ) -> (request: Self)
        ensures
            request.term == term,
            request.leader_id == leader_id,
            request.previous_log_index == previous_log_index,
            request.previous_log_term == previous_log_term,
            request.entries == entries,
            request.leader_commit_index == leader_commit_index,
    {
        AppendEntriesRequest {
            term,
            leader_id,
            previous_log_index,
            previous_log_term,
            entries,
            leader_commit_index,
        }
    }
}

/// A server answers an AppendEntries request with term 0 and no success,
/// and changes nothing.
pub fn process(state: &PersistentState, request: AppendEntriesRequest) -> (response: AppendEntriesResponse)
    ensures
        response == (AppendEntriesResponse { term: 0, success: false }),
{
    AppendEntriesResponse { term: 0, success: false }
}

} // verus!
