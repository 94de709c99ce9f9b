//! The persistent and volatile state records of a node.

pub mod persistent;
pub mod volatile;
