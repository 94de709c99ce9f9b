//! The configuration of a Raft node within its cluster.

use vstd::prelude::*;
use crate::raft::node::ClusterNode;

verus! {

/// The configuration that provides the information about a particular Raft
/// node in a cluster.
#[derive(Debug, Clone)]
pub struct Config {
    /// The nodes of the cluster.
    pub rafts: Vec<ClusterNode>,
    /// The id of this node.
    pub id: u64,
    /// Where this node keeps its persistent state.
    pub log_file: String,
}

} // verus!
