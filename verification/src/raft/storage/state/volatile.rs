//! The volatile state of a node, which differs between leaders and the others.

use vstd::prelude::*;
use std::collections::HashMap;
use crate::raft::node::NodeMetadata;

verus! {

/// The volatile state of a leader.
#[derive(Debug, Clone, PartialEq, Eq)]
pub struct LeaderState {
    /// The index of the highest log entry known to be committed.
    pub commit_index: usize,
    /// The index of the highest log entry applied to the state machine.
    pub last_applied: usize,
    /// For each server, the index of the next log entry to send to it.
    pub next_index: HashMap<usize, Option<usize>>,
    /// For each server, the index of the highest log entry known to be replicated on it.
    pub match_index: HashMap<usize, Option<usize>>,
}

/// The volatile state of a follower or a candidate.
#[derive(Default, Debug, Clone, Copy, PartialEq, Eq)]
pub struct NonLeaderState {
    /// The index of the highest log entry known to be committed.
    pub commit_index: usize,
    /// The index of the highest log entry applied to the state machine.
    pub last_applied: usize,
}

/// The table of a leader of `servers`: each server's id, with no index known yet.
pub open spec fn server_table(servers: Seq<NodeMetadata>) -> Map<usize, Option<usize>> {
    Map::new(
        |id: usize| exists|i: int| 0 <= i < servers.len() && #[trigger] servers[i].id as usize == id,
        |id: usize| None::<usize>,
    )
}

impl LeaderState {
    /// The same leader, now keeping tables for exactly `servers`: each server
    /// id, with no index known yet. The indices do not change.
    pub fn servers(self, servers: &[NodeMetadata]) -> (s: Self)
        ensures
            s.commit_index == self.commit_index,
            s.last_applied == self.last_applied,
            s.next_index@ == server_table(servers@),
            s.match_index@ == server_table(servers@),
    {
        let mut next_index: HashMap<usize, Option<usize>> = HashMap::new();
        let mut match_index: HashMap<usize, Option<usize>> = HashMap::new();
        let mut i: usize = 0;
        while i < servers.len()
            invariant
                i <= servers@.len(),
                next_index@ == server_table(servers@.take(i as int)),
                match_index@ == server_table(servers@.take(i as int)),
            decreases servers@.len() - i,
        {
            let id = servers[i].id as usize;
            next_index.insert(id, None);
            match_index.insert(id, None);
            proof {
                let before = servers@.take(i as int);
                let after = servers@.take(i + 1);
                assert forall|k: usize| #[trigger] server_table(after).contains_key(k) <==> (
                server_table(before).contains_key(k) || k == id) by {
                    if k == id {
                        assert(after[i as int].id as usize == k);
                    }
                    if server_table(after).contains_key(k) && k != id {
                        let j = choose|j: int| 0 <= j < after.len() && #[trigger] after[j].id as usize == k;
                        assert(before[j].id as usize == k);
                    }
                    if server_table(before).contains_key(k) {
                        let j = choose|j: int| 0 <= j < before.len() && #[trigger] before[j].id as usize == k;
                        assert(after[j].id as usize == k);
                    }
                }
                assert(next_index@ =~= server_table(after));
                assert(match_index@ =~= server_table(after));
            }
            i = i + 1;
        }
        proof {
            assert(servers@.take(servers@.len() as int) =~= servers@);
        }
        LeaderState {
            commit_index: self.commit_index,
            last_applied: self.last_applied,
            next_index,
            match_index,
        }
    }

    /// A leader taking over the indices of a non-leader, with empty tables.
    pub fn from_non_leader(state: NonLeaderState) -> (s: Self)
        ensures
            s.commit_index == state.commit_index,
            s.last_applied == state.last_applied,
            s.next_index@ == Map::<usize, Option<usize>>::empty(),
            s.match_index@ == Map::<usize, Option<usize>>::empty(),
    {
        LeaderState {
            commit_index: state.commit_index,
            last_applied: state.last_applied,
            next_index: HashMap::new(),
            match_index: HashMap::new(),
        }
    }
}

impl NonLeaderState {
    /// A non-leader keeping the indices of a former leader.
    pub fn from_leader(state: LeaderState) -> (s: Self)
        ensures
            s.commit_index == state.commit_index,
            s.last_applied == state.last_applied,
    {
        NonLeaderState { commit_index: state.commit_index, last_applied: state.last_applied }
    }
}

/// The volatile state on all servers; only leaders keep per-server tables.
#[derive(Debug, Clone, PartialEq, Eq)]
pub enum VolatileState {
    Leader(LeaderState),
    NonLeader(NonLeaderState),
}

impl VolatileState {
    /// The state of a fresh node: a non-leader with both indices at 0.
    pub fn new() -> (s: Self)
        ensures
            s == VolatileState::NonLeader(NonLeaderState { commit_index: 0, last_applied: 0 }),
    {
        VolatileState::NonLeader(NonLeaderState { commit_index: 0, last_applied: 0 })
    }
}

impl Default for VolatileState {
    fn default() -> (s: Self)
        ensures
            s == VolatileState::NonLeader(NonLeaderState { commit_index: 0, last_applied: 0 }),
    {
        Self::new()
    }
}

} // verus!
