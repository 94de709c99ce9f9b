use kraft::raft::config::Config;
use kraft::raft::node::{
    Candidate, ClusterNode, Election, Follower, NodeMetadata, PersistentState, Raft, State,
    VolatileState,
};

#[test]
fn test_create_new_raft_node() {
    let node: Raft<usize> = Raft::new("/tmp");

    assert_eq!(node.node_state, Election::Follower(Follower::default()));
    assert_eq!(node.meta, NodeMetadata::new("/tmp"));
    assert_eq!(&node.persistent_data, &PersistentState::new());
    assert_eq!(&node.volatile_data, &VolatileState::new());
}

#[test]
fn transform_follower_into_candidate() {
    let node: Raft<usize> = Raft::new("/tmp");
    assert_eq!(node.node_state, Election::Follower(Follower::default()));
    assert_eq!(node.meta, NodeMetadata::new("/tmp"));
    assert_eq!(&node.persistent_data, &PersistentState::new());
    assert_eq!(&node.volatile_data, &VolatileState::new());
    let node: Raft<usize> = node.promote();
    assert_eq!(node.node_state, Election::Candidate(Candidate::default()));
    assert_eq!(node.meta, NodeMetadata::new("/tmp"));
    assert_eq!(&node.persistent_data, &PersistentState::new());
    assert_eq!(&node.volatile_data, &VolatileState::new());
}

#[test]
fn transform_candidate_into_leader() {
    let mut node: Raft<usize> = Raft::new("/tmp");
    node = node.promote();
    assert_eq!(node.node_state, Election::Candidate(Candidate::default()));
    assert_eq!(node.meta, NodeMetadata::new("/tmp"));
    assert_eq!(&node.persistent_data, &PersistentState::new());
    assert_eq!(&node.volatile_data, &VolatileState::new());
    let node: Raft<usize> = node.promote();
    assert_eq!(node.meta, NodeMetadata::new("/tmp"));
    assert_eq!(&node.persistent_data, &PersistentState::new());
    assert_eq!(&node.volatile_data, &VolatileState::new());
}

#[test]
fn log_file_is_placed_in_the_temporary_directory() {
    assert_eq!(NodeMetadata::new("/tmp").log_file, "/tmp/raft.log");
    assert_eq!(NodeMetadata::new("/tmp/").log_file, "/tmp/raft.log");
    assert_eq!(NodeMetadata::new("").log_file, "raft.log");
    let meta = NodeMetadata::new("/var/tmp");
    assert_eq!(meta.id, 0);
    assert_eq!(meta.addr, "");
    assert_eq!(meta.log_file, "/var/tmp/raft.log");
}

#[test]
fn leader_demotes_to_follower_and_keeps_its_state() {
    let node: Raft<usize> = Raft::new("/tmp").promote().promote();
    assert!(matches!(node.node_state, Election::Leader(_)));
    let node = node.demote();
    assert_eq!(node.node_state, Election::Follower(Follower));
    assert_eq!(node.meta, NodeMetadata::new("/tmp"));
    let node = node.promote().demote();
    assert_eq!(node.node_state, Election::Follower(Follower));
}

#[test]
fn raft_from_config_knows_its_cluster() {
    let config = Config {
        rafts: vec![
            ClusterNode { id: 1, addr: "10.0.0.1:60000".to_owned() },
            ClusterNode { id: 2, addr: "10.0.0.2:60000".to_owned() },
            ClusterNode { id: 1, addr: "10.0.0.3:60000".to_owned() },
        ],
        id: 7,
        log_file: "/tmp/node7.log".to_owned(),
    };
    let node: Raft<Vec<u8>> = Raft::from_config(config);
    assert_eq!(node.meta.id, 7);
    assert_eq!(node.meta.addr, "0.0.0.0:60000");
    assert_eq!(node.meta.log_file, "/tmp/node7.log");
    assert_eq!(node.node_state, Election::Follower(Follower));

    // The leader of this cluster keeps a table entry for every node.
    let node = node.promote().promote();
    match &node.node_state {
        Election::Leader(leader) => {
            assert_eq!(leader.neighbor_data.next_index_of(1), Some(None));
            assert_eq!(leader.neighbor_data.next_index_of(2), Some(None));
            assert_eq!(leader.neighbor_data.match_index_of(2), Some(None));
            assert_eq!(leader.neighbor_data.match_index_of(3), None);
        },
        _ => panic!("expected a leader"),
    }
}

#[test]
fn election_roles_compare_by_kind() {
    assert_eq!(Election::default(), Election::Follower(Follower));
    assert_ne!(Election::Follower(Follower), Election::Candidate(Candidate));
    let candidate: Candidate = Follower.into();
    assert_eq!(candidate, Candidate);
    let follower: Follower = Candidate.into();
    assert_eq!(follower, Follower);
}

#[test]
fn cluster_node_from_metadata() {
    let meta = NodeMetadata { id: 3, addr: "1.2.3.4:5".to_owned(), log_file: "x".to_owned() };
    let node: ClusterNode = meta.into();
    assert_eq!(node, ClusterNode { id: 3, addr: "1.2.3.4:5".to_owned() });
}

#[test]
fn state_reports_a_copy_of_the_node() {
    let mut node: Raft<Vec<u8>> = Raft::new("/tmp");
    node.persistent_data.current_term = 4;
    node.persistent_data.voted_for = Some(2);
    node.persistent_data.log = vec![(1, vec![1, 2]), (4, vec![3])];
    node.volatile_data.commit_index = 1;
    let state = State::from_raft(&node);
    assert_eq!(state.persistent, node.persistent_data);
    assert_eq!(state.volatile, node.volatile_data);
    assert_eq!(state.node, node.meta);
}
