//! The heartbeat RPC.

use vstd::prelude::*;
use crate::proto::{HeartbeatRequest, HeartbeatResponse};
use crate::raft::node::Raft;

verus! {

/// Answers a heartbeat with this node's current term and `success: false`,
/// changing nothing.
pub fn heartbeat<T>(node: &Raft<T>, request: HeartbeatRequest) -> (response: HeartbeatResponse)
    ensures
        response.term == node.persistent_data.current_term,
        !response.success,
{
    HeartbeatResponse { term: node.persistent_data.current_term, success: false }
}

} // verus!
