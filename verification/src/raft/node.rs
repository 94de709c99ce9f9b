//! The state of a Raft node and the transitions between its election roles.

use vstd::prelude::*;
use vstd::std_specs::convert::FromSpecImpl;
use vstd::std_specs::cmp::PartialEqSpecImpl;
use vstd::string::StringExecFns;
use vstd::string::StrSliceExecFns;
use crate::raft::config::Config;

verus! {

pub type Int = u64;

/// A log entry: the term in which the leader received it, and the command.
pub type Log<T> = (Int, T);

/// The state that a node keeps on stable storage.
#[derive(Clone, Debug, PartialEq, Eq)]
pub struct PersistentState<T> {
    /// The log entries, each entry contains a command for the state machine and
    /// the term when the entry was received by the leader.
    pub log: Vec<Log<T>>,
    /// The latest term the server has seen (0 on first boot, increases monotonically).
    pub current_term: Int,
    /// The candidate that received this node's vote in the current term, if any.
    pub voted_for: Option<Int>,
}

impl<T> PersistentState<T> {
    /// The state of a node on first boot: term 0, no vote, an empty log.
    pub fn new() -> (s: Self)
        ensures
            s.log@ == Seq::<Log<T>>::empty(),
            s.current_term == 0,
            s.voted_for == None::<Int>,
    {
        PersistentState { log: Vec::new(), current_term: 0, voted_for: None }
    }
}

impl<T> Default for PersistentState<T> {
    fn default() -> (s: Self)
        ensures
            s.log@ == Seq::<Log<T>>::empty(),
            s.current_term == 0,
            s.voted_for == None::<Int>,
    {
        Self::new()
    }
}

/// The volatile state kept by every server.
#[derive(Default, Clone, Copy, Debug, PartialEq, Eq)]
pub struct VolatileState {
    /// The index of the highest log entry known to be committed.
    pub commit_index: Int,
    /// The index of the highest log entry applied to the state machine.
    pub last_applied: Int,
}

impl VolatileState {
    /// Both indices start at 0.
    pub fn new() -> (s: Self)
        ensures
            s.commit_index == 0,
            s.last_applied == 0,
    {
        VolatileState { commit_index: 0, last_applied: 0 }
    }
}

/// A node of the cluster as seen from a given node.
#[derive(Default, Debug, Clone, PartialEq, Eq)]
pub struct ClusterNode {
    /// The id of the node in the raft cluster.
    pub id: Int,
    /// The address of the node from the perspective of a given node.
    pub addr: String,
}

/// Identity and storage location of this node.
#[derive(Debug, Clone, PartialEq, Eq)]
pub struct NodeMetadata {
    pub id: Int,
    pub addr: String,
    pub log_file: String,
}

/// The path of the log file `raft.log` placed in directory `dir`, with the
/// separator rule of a Unix path: none after an empty directory or one
/// that already ends with `/`.
pub open spec fn log_file_in(dir: Seq<char>) -> Seq<char> {
    if dir.len() == 0 {
        seq!['r', 'a', 'f', 't', '.', 'l', 'o', 'g']
    } else if dir.last() == '/' {
        dir + seq!['r', 'a', 'f', 't', '.', 'l', 'o', 'g']
    } else {
        dir + seq!['/', 'r', 'a', 'f', 't', '.', 'l', 'o', 'g']
    }
}

impl NodeMetadata {
    /// The metadata of a fresh node: id 0, no address, and a log file named
    /// `raft.log` in the temporary directory `temp_dir`.
    pub fn new(temp_dir: &str) -> (m: Self)
        ensures
            m.id == 0,
            m.addr@ == Seq::<char>::empty(),
            m.log_file@ == log_file_in(temp_dir@),
    {
        proof {
            reveal_strlit("raft.log");
            reveal_strlit("/raft.log");
        }
        let n = temp_dir.unicode_len();
        let mut log_file = String::from_str(temp_dir);
        if n == 0 {
            log_file.append("raft.log");
        } else if temp_dir.get_char(n - 1) == '/' {
            log_file.append("raft.log");
        } else {
            log_file.append("/raft.log");
        }
        proof {
            assert(seq!['r', 'a', 'f', 't', '.', 'l', 'o', 'g'] =~= "raft.log"@);
            assert(seq!['/', 'r', 'a', 'f', 't', '.', 'l', 'o', 'g'] =~= "/raft.log"@);
        }
        NodeMetadata { id: 0, addr: String::new(), log_file }
    }
}

impl From<NodeMetadata> for ClusterNode {
    fn from(node: NodeMetadata) -> (c: ClusterNode) {
        ClusterNode { id: node.id, addr: node.addr }
    }
}

impl FromSpecImpl<NodeMetadata> for ClusterNode {
    open spec fn obeys_from_spec() -> bool {
        true
    }

    open spec fn from_spec(node: NodeMetadata) -> ClusterNode {
        ClusterNode { id: node.id, addr: node.addr }
    }
}


/// The cluster of nodes known to a node, keyed by node id, held in a
/// `hashbrown::HashMap`.
#[derive(Debug)]
#[verifier::external_body]
pub struct ClusterMap {
    nodes: hashbrown::HashMap<Int, ClusterNode>,
}

/// The nodes that a `ClusterMap` holds, by id.
pub uninterp spec fn cluster_map_nodes(map: ClusterMap) -> Map<Int, ClusterNode>;

impl ClusterMap {
    /// `hashbrown::HashMap::new`: claimed to hold no node.
    #[verifier::external_body]
    pub(crate) fn new() -> (created: ClusterMap)
        ensures
            cluster_map_nodes(created).dom() == Set::<Int>::empty(),
    {
        ClusterMap { nodes: hashbrown::HashMap::new() }
    }

    /// `hashbrown::HashMap::insert`: claimed to map `id` to `node`, keep every
    /// other entry, and return what `id` mapped to before.
    #[verifier::external_body]
    pub(crate) fn insert(&mut self, id: Int, node: ClusterNode) -> (previous: Option<ClusterNode>)
        ensures
            cluster_map_nodes(*final(self)) == cluster_map_nodes(*old(self)).insert(id, node),
            previous == (if cluster_map_nodes(*old(self)).contains_key(id) {
                Some(cluster_map_nodes(*old(self))[id])
            } else {
                None
            }),
    {
        self.nodes.insert(id, node)
    }

    /// `hashbrown::HashMap::keys`, collected: claimed to list every id once.
    #[verifier::external_body]
    pub(crate) fn ids(&self) -> (ids: Vec<Int>)
        ensures
            ids@.to_set() == cluster_map_nodes(*self).dom(),
            ids@.no_duplicates(),
    {
        self.nodes.keys().copied().collect()
    }
}

/// A per-node index table of a leader, keyed by node id, held in a
/// `hashbrown::HashMap`.
#[derive(Debug)]
#[verifier::external_body]
pub struct NodeIndexMap {
    indices: hashbrown::HashMap<Int, Option<Int>>,
}

/// The entries that a `NodeIndexMap` holds, by node id.
pub uninterp spec fn node_index_entries(map: NodeIndexMap) -> Map<Int, Option<Int>>;

impl NodeIndexMap {
    /// `hashbrown::HashMap::new`: claimed to hold no entry.
    #[verifier::external_body]
    pub(crate) fn new() -> (created: NodeIndexMap)
        ensures
            node_index_entries(created).dom() == Set::<Int>::empty(),
    {
        NodeIndexMap { indices: hashbrown::HashMap::new() }
    }

    /// `hashbrown::HashMap::insert`: claimed to map `id` to `index` and keep
    /// every other entry.
    #[verifier::external_body]
    pub(crate) fn insert(&mut self, id: Int, index: Option<Int>) -> (previous: Option<Option<Int>>)
        ensures
            node_index_entries(*final(self)) == node_index_entries(*old(self)).insert(id, index),
            previous == (if node_index_entries(*old(self)).contains_key(id) {
                Some(node_index_entries(*old(self))[id])
            } else {
                None
            }),
    {
        self.indices.insert(id, index)
    }
}

impl NodeIndexMap {
    /// `hashbrown::HashMap::get`, copied out: claimed to return the entry of
    /// `id`, if there is one.
    #[verifier::external_body]
    pub(crate) fn get(&self, id: Int) -> (entry: Option<Option<Int>>)
        ensures
            entry == (if node_index_entries(*self).contains_key(id) {
                Some(node_index_entries(*self)[id])
            } else {
                None
            }),
    {
        self.indices.get(&id).copied()
    }
}

/// The state stored by leaders: for each server, the index of the next log
/// entry to send to it and the index of the highest entry known to be
/// replicated on it.
#[derive(Debug)]
pub struct LeaderVolatileState {
    pub next_index: NodeIndexMap,
    pub match_index: NodeIndexMap,
}

/// Both tables of a fresh leader: every node of the cluster, mapped to `None`.
pub open spec fn fresh_index_table(cluster: Map<Int, ClusterNode>) -> Map<Int, Option<Int>> {
    Map::new(|id: Int| cluster.contains_key(id), |id: Int| None::<Int>)
}

impl LeaderVolatileState {
    /// Empty tables.
    pub fn new() -> (s: Self)
        ensures
            node_index_entries(s.next_index) == Map::<Int, Option<Int>>::empty(),
            node_index_entries(s.match_index) == Map::<Int, Option<Int>>::empty(),
    {
        LeaderVolatileState { next_index: NodeIndexMap::new(), match_index: NodeIndexMap::new() }
    }

    /// The index of the next log entry to send to node `id`: `None` when the
    /// table does not list the node, `Some(None)` when no index is known yet.
    pub fn next_index_of(&self, id: Int) -> (index: Option<Option<Int>>)
        ensures
            index == (if node_index_entries(self.next_index).contains_key(id) {
                Some(node_index_entries(self.next_index)[id])
            } else {
                None
            }),
    {
        self.next_index.get(id)
    }

    /// The index of the highest log entry known to be replicated on node
    /// `id`: `None` when the table does not list the node, `Some(None)` when
    /// no index is known yet.
    pub fn match_index_of(&self, id: Int) -> (index: Option<Option<Int>>)
        ensures
            index == (if node_index_entries(self.match_index).contains_key(id) {
                Some(node_index_entries(self.match_index)[id])
            } else {
                None
            }),
    {
        self.match_index.get(id)
    }

    /// The tables of a leader of `cluster`: every node, with no index known yet.
    pub fn from_cluster(cluster: &ClusterMap) -> (s: Self)
        ensures
            node_index_entries(s.next_index) == fresh_index_table(cluster_map_nodes(*cluster)),
            node_index_entries(s.match_index) == fresh_index_table(cluster_map_nodes(*cluster)),
    {
        let ids = cluster.ids();
        let ghost dom = cluster_map_nodes(*cluster).dom();
        let mut next_index = NodeIndexMap::new();
        let mut match_index = NodeIndexMap::new();
        let mut i: usize = 0;
        while i < ids.len()
            invariant
                i <= ids.len(),
                ids@.to_set() == dom,
                node_index_entries(next_index) == Map::new(
                    |id: Int| ids@.take(i as int).contains(id),
                    |id: Int| None::<Int>,
                ),
                node_index_entries(match_index) == Map::new(
                    |id: Int| ids@.take(i as int).contains(id),
                    |id: Int| None::<Int>,
                ),
            decreases ids.len() - i,
        {
            let id = ids[i];
            next_index.insert(id, None);
            match_index.insert(id, None);
            proof {
                broadcast use vstd::seq_lib::lemma_seq_contains_after_push;
                assert(ids@.take(i + 1) =~= ids@.take(i as int).push(id));
                assert(node_index_entries(next_index) =~= Map::new(
                    |k: Int| ids@.take(i + 1).contains(k),
                    |k: Int| None::<Int>,
                ));
                assert(node_index_entries(match_index) =~= Map::new(
                    |k: Int| ids@.take(i + 1).contains(k),
                    |k: Int| None::<Int>,
                ));
            }
            i = i + 1;
        }
        proof {
            assert(ids@.take(ids@.len() as int) =~= ids@);
            assert forall|k: Int| ids@.contains(k) <==> cluster_map_nodes(*cluster).contains_key(k) by {
                if ids@.contains(k) {
                    assert(ids@.to_set().contains(k));
                }
                if cluster_map_nodes(*cluster).contains_key(k) {
                    assert(dom.contains(k));
                }
            }
            assert(node_index_entries(next_index) =~= fresh_index_table(cluster_map_nodes(*cluster)));
            assert(node_index_entries(match_index) =~= fresh_index_table(cluster_map_nodes(*cluster)));
        }
        LeaderVolatileState { next_index, match_index }
    }
}

/// The role of a leader, with its per-node tables.
#[derive(Debug)]
pub struct Leader {
    pub neighbor_data: LeaderVolatileState,
}

impl Default for Leader {
    fn default() -> (l: Self)
        ensures
            node_index_entries(l.neighbor_data.next_index) == Map::<Int, Option<Int>>::empty(),
            node_index_entries(l.neighbor_data.match_index) == Map::<Int, Option<Int>>::empty(),
    {
        Leader { neighbor_data: LeaderVolatileState::new() }
    }
}

/// The role of a candidate.
#[derive(Default, Debug, Clone, Copy, PartialEq, Eq)]
pub struct Candidate;

/// The role of a follower.
#[derive(Default, Debug, Clone, Copy, PartialEq, Eq)]
pub struct Follower;

impl From<Follower> for Candidate {
    fn from(f: Follower) -> (c: Candidate) {
        Candidate
    }
}

impl FromSpecImpl<Follower> for Candidate {
    open spec fn obeys_from_spec() -> bool {
        true
    }

    open spec fn from_spec(f: Follower) -> Candidate {
        Candidate
    }
}

impl From<Candidate> for Follower {
    fn from(c: Candidate) -> (f: Follower) {
        Follower
    }
}

impl FromSpecImpl<Candidate> for Follower {
    open spec fn obeys_from_spec() -> bool {
        true
    }

    open spec fn from_spec(c: Candidate) -> Follower {
        Follower
    }
}

impl From<Leader> for Follower {
    fn from(l: Leader) -> (f: Follower) {
        Follower
    }
}

impl FromSpecImpl<Leader> for Follower {
    open spec fn obeys_from_spec() -> bool {
        true
    }

    open spec fn from_spec(l: Leader) -> Follower {
        Follower
    }
}

/// The election role of a node.
#[derive(Debug)]
pub enum Election {
    Leader(Leader),
    Candidate(Candidate),
    Follower(Follower),
}

impl Default for Election {
    fn default() -> (e: Self)
        ensures
            e is Follower,
    {
        Election::Follower(Follower)
    }
}

/// Two roles are equal when they are the same kind of role, whatever a
/// leader's tables hold.
impl PartialEq for Election {
    fn eq(&self, other: &Self) -> (r: bool) {
        match (self, other) {
            (Election::Leader(_), Election::Leader(_)) => true,
            (Election::Candidate(_), Election::Candidate(_)) => true,
            (Election::Follower(_), Election::Follower(_)) => true,
            _ => false,
        }
    }
}

impl PartialEqSpecImpl for Election {
    open spec fn obeys_eq_spec() -> bool {
        true
    }

    open spec fn eq_spec(&self, other: &Self) -> bool {
        (self is Leader && other is Leader) || (self is Candidate && other is Candidate) || (
        self is Follower && other is Follower)
    }
}

impl Eq for Election {
}

/// A Raft node: its identity, the cluster it knows, its persistent and
/// volatile state, and its election role.
#[derive(Debug)]
pub struct Raft<T> {
    pub meta: NodeMetadata,
    pub cluster: ClusterMap,
    pub persistent_data: PersistentState<T>,
    pub volatile_data: VolatileState,
    pub node_state: Election,
}

/// The cluster that a list of nodes describes: each node under its id, a
/// later node replacing an earlier one with the same id.
pub open spec fn cluster_of(nodes: Seq<ClusterNode>) -> Map<Int, ClusterNode>
    decreases nodes.len(),
{
    if nodes.len() == 0 {
        Map::empty()
    } else {
        cluster_of(nodes.drop_last()).insert(nodes.last().id, nodes.last())
    }
}

impl<T> Raft<T> {
    /// A fresh follower with no cluster, whose metadata is that of
    /// `NodeMetadata::new(temp_dir)` and whose states are those of a first boot.
    pub fn new(temp_dir: &str) -> (node: Self)
        ensures
            node.meta.id == 0,
            node.meta.addr@ == Seq::<char>::empty(),
            node.meta.log_file@ == log_file_in(temp_dir@),
            cluster_map_nodes(node.cluster).dom() == Set::<Int>::empty(),
            node.persistent_data.log@ == Seq::<Log<T>>::empty(),
            node.persistent_data.current_term == 0,
            node.persistent_data.voted_for == None::<Int>,
            node.volatile_data == (VolatileState { commit_index: 0, last_applied: 0 }),
            node.node_state is Follower,
    {
        Raft {
            meta: NodeMetadata::new(temp_dir),
            cluster: ClusterMap::new(),
            persistent_data: PersistentState::new(),
            volatile_data: VolatileState::new(),
            node_state: Election::Follower(Follower),
        }
    }

    /// A follower becomes a candidate; a candidate becomes a leader whose
    /// tables list every node of the cluster with no index known yet. Nothing
    /// else changes. A leader cannot be promoted.
    pub fn promote(self) -> (node: Self)
        requires
            !(self.node_state is Leader),
        ensures
            self.node_state is Follower ==> node.node_state is Candidate,
            self.node_state is Candidate ==> node.node_state is Leader,
            (node.node_state matches Election::Leader(leader) ==> {
                &&& node_index_entries(leader.neighbor_data.next_index) == fresh_index_table(
                    cluster_map_nodes(self.cluster),
                )
                &&& node_index_entries(leader.neighbor_data.match_index) == fresh_index_table(
                    cluster_map_nodes(self.cluster),
                )
            }),
            node.meta == self.meta,
            node.cluster == self.cluster,
            node.persistent_data == self.persistent_data,
            node.volatile_data == self.volatile_data,
    {
        let node_state = match self.node_state {
            Election::Follower(follower) => Election::Candidate(follower.into()),
            Election::Candidate(_) => Election::Leader(
                Leader { neighbor_data: LeaderVolatileState::from_cluster(&self.cluster) },
            ),
            Election::Leader(_) => Election::Leader(Leader::default()),
        };
        Raft {
            meta: self.meta,
            cluster: self.cluster,
            persistent_data: self.persistent_data,
            volatile_data: self.volatile_data,
            node_state,
        }
    }

    /// A candidate or a leader steps down to a follower. Nothing else changes.
    /// A follower cannot be demoted.
    pub fn demote(self) -> (node: Self)
        requires
            !(self.node_state is Follower),
        ensures
            node.node_state is Follower,
            node.meta == self.meta,
            node.cluster == self.cluster,
            node.persistent_data == self.persistent_data,
            node.volatile_data == self.volatile_data,
    {
        let node_state = match self.node_state {
            Election::Follower(follower) => Election::Follower(follower),
            Election::Candidate(candidate) => Election::Follower(candidate.into()),
            Election::Leader(leader) => Election::Follower(leader.into()),
        };
        Raft {
            meta: self.meta,
            cluster: self.cluster,
            persistent_data: self.persistent_data,
            volatile_data: self.volatile_data,
            node_state,
        }
    }

}

/// What a node's log can hold: a command that can be copied and that can be
/// made from the bytes that an RPC carries.
pub trait RaftLogEntry: Clone + From<Vec<u8>> {}

impl<T: Clone + From<Vec<u8>>> RaftLogEntry for T {}

impl<T: RaftLogEntry> Raft<T> {
    /// Election timers are not run by this node: this changes nothing.
    pub fn reset_election_timer(&self) {
    }
}

impl<T> Raft<T> {
    /// A follower built from `config`: its id and log file, the fixed address
    /// `0.0.0.0:60000`, the cluster that `config.rafts` lists, and the states
    /// of a first boot.
    pub fn from_config(config: Config) -> (node: Raft<T>)
        ensures
            node.meta.id == config.id,
            node.meta.addr@ == "0.0.0.0:60000"@,
            node.meta.log_file == config.log_file,
            cluster_map_nodes(node.cluster) == cluster_of(config.rafts@),
            node.persistent_data.log@ == Seq::<Log<T>>::empty(),
            node.persistent_data.current_term == 0,
            node.persistent_data.voted_for == None::<Int>,
            node.volatile_data == (VolatileState { commit_index: 0, last_applied: 0 }),
            node.node_state is Follower,
    {
        let Config { rafts, id, log_file } = config;
        let mut cluster = ClusterMap::new();
        let mut i: usize = 0;
        let ghost nodes = rafts@;
        for node in it: rafts
            invariant
                it.seq() == nodes,
                cluster_map_nodes(cluster) == cluster_of(nodes.take(it.index() as int)),
        {
            proof {
                assert(nodes.take(it.index() + 1).drop_last() =~= nodes.take(it.index() as int));
            }
            cluster.insert(node.id, node);
        }
        proof {
            assert(nodes.take(nodes.len() as int) =~= nodes);
        }
        Raft {
            meta: NodeMetadata { id, addr: String::from_str("0.0.0.0:60000"), log_file },
            cluster,
            persistent_data: PersistentState::new(),
            volatile_data: VolatileState::new(),
            node_state: Election::Follower(Follower),
        }
    }
}

/// Whether `copy` holds the same terms and vote as `state`, and a clone of
/// each of its log entries.
pub open spec fn copied_state<T: Clone>(state: PersistentState<T>, copy: PersistentState<T>) -> bool {
    &&& copy.current_term == state.current_term
    &&& copy.voted_for == state.voted_for
    &&& copy.log@.len() == state.log@.len()
    &&& forall|i: int|
        0 <= i < state.log@.len() ==> #[trigger] copy.log@[i].0 == state.log@[i].0 && cloned::<T>(
            state.log@[i].1,
            copy.log@[i].1,
        )
}

impl<T: Clone> PersistentState<T> {
    /// A copy of this state, each command cloned.
    pub fn copy(&self) -> (copy: Self)
        ensures
            copied_state(*self, copy),
    {
        let mut log: Vec<Log<T>> = Vec::new();
        let mut i: usize = 0;
        while i < self.log.len()
            invariant
                i <= self.log@.len(),
                log@.len() == i,
                forall|j: int|
                    0 <= j < i ==> #[trigger] log@[j].0 == self.log@[j].0 && cloned::<T>(
                        self.log@[j].1,
                        log@[j].1,
                    ),
            decreases self.log@.len() - i,
        {
            let command = self.log[i].1.clone();
            log.push((self.log[i].0, command));
            i = i + 1;
        }
        PersistentState { log, current_term: self.current_term, voted_for: self.voted_for }
    }
}

impl NodeMetadata {
    /// A copy of this metadata.
    pub fn copy(&self) -> (copy: Self)
        ensures
            copy.id == self.id,
            copy.addr@ == self.addr@,
            copy.log_file@ == self.log_file@,
    {
        NodeMetadata { id: self.id, addr: self.addr.clone(), log_file: self.log_file.clone() }
    }
}

/// What a node reports of itself: its persistent and volatile state and its
/// metadata.
#[derive(Debug, Clone)]
pub struct State<T> {
    pub persistent: PersistentState<T>,
    pub volatile: VolatileState,
    pub node: NodeMetadata,
}

impl<T: Clone> State<T> {
    /// A copy of what `raft` holds.
    pub fn from_raft(raft: &Raft<T>) -> (state: Self)
        ensures
            copied_state(raft.persistent_data, state.persistent),
            state.volatile == raft.volatile_data,
            state.node.id == raft.meta.id,
            state.node.addr@ == raft.meta.addr@,
            state.node.log_file@ == raft.meta.log_file@,
    {
        State {
            persistent: raft.persistent_data.copy(),
            volatile: raft.volatile_data,
            node: raft.meta.copy(),
        }
    }
}

} // verus!
