//! The state that a node updates on stable storage before it responds to RPCs.

use vstd::prelude::*;

verus! {

/// A log entry: the term in which the leader received it, and the command.
pub type Log<T> = (u64, T);

/// Updated on stable storage before responding to RPCs.
#[derive(Clone, Debug, PartialEq, Eq)]
pub struct State<T> {
    /// The latest term the server has seen (0 on first boot, increases monotonically).
    pub current_term: usize,
    /// The candidate that received this node's vote in the current term, if any.
    pub voted_for: Option<usize>,
    /// The log entries, each with the term when the entry was received by the leader.
    pub log: Vec<Log<T>>,
}

impl<T> State<T> {
    /// The state on first boot: term 0, no vote, an empty log.
    pub fn new() -> (s: Self)
        ensures
            s.current_term == 0,
            s.voted_for == None::<usize>,
            s.log@ == Seq::<Log<T>>::empty(),
    {
        State { current_term: 0, voted_for: None, log: Vec::new() }
    }
}

impl<T> Default for State<T> {
    fn default() -> (s: Self)
        ensures
            s.current_term == 0,
            s.voted_for == None::<usize>,
            s.log@ == Seq::<Log<T>>::empty(),
    {
        Self::new()
    }
}

} // verus!
