use kraft::data::{FizzBuzzCounter, FizzBuzzLine};
use kraft::election::{Election, PersistentState, VolatileState};
use kraft::network::pool::{TcpNode, TcpNodePool};
use kraft::raft::node::NodeMetadata;
use kraft::raft::rpc::diagnostic::{DataKind, DiagnosticKind, RPCDiagnostic, RPCKind};
use kraft::raft::storage::state::persistent::State;
use kraft::raft::storage::state::volatile::{LeaderState, NonLeaderState, VolatileState as RaftVolatile};
use kraft::rpc::append_entries::{self, AppendEntriesRequest, AppendEntriesResponse};
use kraft::rpc::request_vote::{process, RequestVoteRequest, RequestVoteResponse};

fn kraft_state(voted_for: Option<usize>, log_len: usize) -> PersistentState {
    PersistentState {
        participant_type: Election::Follower,
        current_term: 2,
        voted_for,
        log: (0..log_len).map(|i| ("Some string".to_owned(), i)).collect(),
    }
}

#[test]
fn kraft_vote_granted_when_not_voted_and_log_caught_up() {
    let mut state = kraft_state(None, 1);
    let (response, store) = process(&mut state, RequestVoteRequest::new(2, 5, 1, 2));
    assert_eq!(response, RequestVoteResponse { term: 2, vote_granted: true });
    assert!(store);
    assert_eq!(state.voted_for, Some(5));
}

#[test]
fn kraft_vote_denied_for_stale_term_or_short_log() {
    let mut state = kraft_state(None, 2);
    assert_eq!(process(&mut state, RequestVoteRequest::new(1, 5, 9, 1)), (
        RequestVoteResponse { term: 2, vote_granted: false },
        false,
    ));
    assert_eq!(process(&mut state, RequestVoteRequest::new(3, 5, 1, 1)), (
        RequestVoteResponse { term: 2, vote_granted: false },
        false,
    ));
    assert_eq!(state.voted_for, None);
}

#[test]
fn kraft_vote_sticks_to_the_chosen_candidate() {
    let mut state = kraft_state(Some(3), 0);
    assert!(!process(&mut state, RequestVoteRequest::new(4, 5, 0, 0)).0.vote_granted);
    assert!(process(&mut state, RequestVoteRequest::new(4, 3, 0, 0)).0.vote_granted);
    assert_eq!(state.voted_for, Some(3));
    assert_eq!(state.current_term, 2);
}

#[test]
fn kraft_append_entries_answers_by_default() {
    let state = PersistentState::default();
    let request = AppendEntriesRequest::new(1, 2, 3, 4, vec!["x".to_owned()], 5);
    assert_eq!(request.previous_log_index, 3);
    assert_eq!(append_entries::process(&state, request), AppendEntriesResponse::default());
}

#[test]
fn kraft_defaults() {
    let state = PersistentState::default();
    assert_eq!(state.participant_type, Election::Follower);
    assert_eq!(state.current_term, 0);
    let volatile = VolatileState::default();
    assert_eq!(volatile.commit_index, 0);
    assert!(volatile.next_index.is_none());
}

#[test]
fn fizz_buzz_lines() {
    let line = |value| FizzBuzzCounter { time_stamp: std::time::SystemTime::now(), value }.line();
    assert_eq!(line(0), FizzBuzzLine::FizzBuzz);
    assert_eq!(line(30), FizzBuzzLine::FizzBuzz);
    assert_eq!(line(10), FizzBuzzLine::Buzz);
    assert_eq!(line(9), FizzBuzzLine::Fizz);
    assert_eq!(line(7), FizzBuzzLine::Number(7));
}

#[test]
fn pool_holds_its_nodes() {
    let nodes = vec![TcpNode { id: 1, addr: "127.0.0.1:9001".to_owned() }];
    let pool = TcpNodePool::new(nodes.clone());
    assert_eq!(pool.nodes, nodes);
}

#[test]
fn leader_state_tables_list_the_servers() {
    let servers = vec![
        NodeMetadata { id: 3, addr: "a".to_owned(), log_file: "x".to_owned() },
        NodeMetadata { id: 5, addr: "b".to_owned(), log_file: "y".to_owned() },
    ];
    let leader = LeaderState::from_non_leader(NonLeaderState { commit_index: 4, last_applied: 2 })
        .servers(&servers);
    assert_eq!(leader.commit_index, 4);
    assert_eq!(leader.next_index.len(), 2);
    assert_eq!(leader.next_index.get(&3), Some(&None));
    assert_eq!(leader.match_index.get(&5), Some(&None));
    let back = NonLeaderState::from_leader(leader);
    assert_eq!(back, NonLeaderState { commit_index: 4, last_applied: 2 });
    assert_eq!(RaftVolatile::new(), RaftVolatile::NonLeader(NonLeaderState::default()));
    let fresh: State<String> = State::new();
    assert_eq!(fresh.current_term, 0);
    assert!(fresh.log.is_empty());
}

#[test]
fn diagnostics_carry_what_they_were_given() {
    let report: RPCDiagnostic<u64, String> = RPCDiagnostic::new(
        DiagnosticKind::ReceiverBeforeProcessing,
        DataKind::Request,
        RPCKind::AppendEntries,
        Some("body".to_owned()),
        7,
    );
    let other: RPCDiagnostic<u64, String> =
        RPCDiagnostic::new(DiagnosticKind::SenderBeforeSending, DataKind::Response, RPCKind::Heartbeat, None, 8);
    assert_ne!(report.rpc_id, other.rpc_id);
    let id = other.rpc_id;
    let report = report.with_id(id);
    assert_eq!(report.rpc_id, id);
    assert_eq!(report.kind, DiagnosticKind::ReceiverBeforeProcessing);
    assert_eq!(report.data, Some("body".to_owned()));
    assert_eq!(report.state, 7);
}
