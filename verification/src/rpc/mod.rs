//! The RPCs that servers exchange.

pub mod append_entries;
pub mod request_vote;
