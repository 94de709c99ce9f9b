//! The nodes of the network.

pub mod node;
pub mod pool;
