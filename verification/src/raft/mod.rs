pub mod client;
pub mod config;
pub mod node;
pub mod rpc;
pub mod storage;
