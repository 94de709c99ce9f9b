//! A pool of network nodes.

use vstd::prelude::*;

verus! {

/// A node of the network: its id and its socket address, as text.
#[derive(Debug, Clone, PartialEq, Eq)]
pub struct TcpNode {
    pub id: usize,
    pub addr: String,
}

/// A pool of network nodes.
#[derive(Debug, Clone)]
pub struct TcpNodePool {
    pub nodes: Vec<TcpNode>,
}

impl TcpNodePool {
    /// A pool of exactly `nodes`, in order.
    pub fn new(nodes: Vec<TcpNode>) -> (pool: Self)
        ensures
            pool.nodes == nodes,
    {
        TcpNodePool { nodes }
    }
}

} // verus!
