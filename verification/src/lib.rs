//! A Raft consensus node, its key-value state machine and the storage codec
//! for its persistent state, with the decision logic of every RPC stated and
//! proved in Verus.

pub mod proto;
pub mod raft;
pub mod storage;
pub mod state_machine;
pub mod election;
pub mod rpc;
pub mod clock;
pub mod data;
pub mod network;
pub mod node_address;
