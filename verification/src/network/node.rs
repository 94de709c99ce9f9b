//! A server of the cluster: its port, its id, its state, and the other nodes
//! it knows.

use vstd::prelude::*;
use crate::election::{PersistentState, VolatileState};

verus! {

/// A server: the port it listens on, its id, its persistent and volatile
/// state, the other nodes of the cluster with their socket addresses (as
/// text), and the file its persistent state is stored in.
#[derive(Debug, Clone, Default)]
pub struct Server {
    pub port: u16,
    pub id: usize,
    pub state: PersistentState,
    pub volatile_state: VolatileState,
    pub remote_nodes: Vec<(usize, String)>,
    pub storage_path: String,
}

/// Whether `addr` is the address of the first of `nodes` whose id is `id`.
pub open spec fn first_address_of(nodes: Seq<(usize, String)>, id: usize, addr: Seq<char>) -> bool {
    exists|i: int|
        0 <= i < nodes.len() && #[trigger] nodes[i].0 == id && nodes[i].1@ == addr && forall|j: int|
            0 <= j < i ==> nodes[j].0 != id
}

impl Server {
    /// A server on `port` with id `id` that knows `remote_nodes` and stores
    /// its state in `storage_path`; it starts as a follower in term 0 that has
    /// not voted, with an empty log.
    pub fn new(port: u16, id: usize, remote_nodes: Vec<(usize, String)>, storage_path: &str) -> (server: Self)
        ensures
            server.port == port,
            server.id == id,
            server.remote_nodes == remote_nodes,
            server.storage_path@ == storage_path@,
            server.state.participant_type == crate::election::Election::Follower,
            server.state.current_term == 0,
            server.state.voted_for == None::<usize>,
            server.state.log@.len() == 0,
            server.volatile_state.commit_index == 0,
            server.volatile_state.last_applied == 0,
            server.volatile_state.next_index is None,
            server.volatile_state.match_index is None,
    {
        Server {
            port,
            id,
            state: PersistentState::default(),
            volatile_state: VolatileState::default(),
            remote_nodes,
            storage_path: storage_path.to_string(),
        }
    }

    /// The socket address of the first remote node with id `id`; such a
    /// node must be known.
    pub fn get_socket_addr(&self, id: usize) -> (addr: String)
        requires
            exists|i: int| 0 <= i < self.remote_nodes@.len() && #[trigger] self.remote_nodes@[i].0 == id,
        ensures
            first_address_of(self.remote_nodes@, id, addr@),
    {
        let mut i: usize = 0;
        while i < self.remote_nodes.len()
            invariant
                i <= self.remote_nodes@.len(),
                forall|j: int| 0 <= j < i ==> self.remote_nodes@[j].0 != id,
                exists|k: int| 0 <= k < self.remote_nodes@.len() && #[trigger] self.remote_nodes@[k].0 == id,
            decreases self.remote_nodes@.len() - i,
        {
            if self.remote_nodes[i].0 == id {
                let addr = self.remote_nodes[i].1.clone();
                assert(self.remote_nodes@[i as int].0 == id);
                return addr;
            }
            i = i + 1;
        }
        proof {
            let k = choose|k: int| 0 <= k < self.remote_nodes@.len() && #[trigger] self.remote_nodes@[k].0 == id;
            assert(self.remote_nodes@[k].0 != id);
        }
        String::new()
    }
}

} // verus!
