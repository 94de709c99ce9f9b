use kraft::proto::{
    AppendEntriesRequest, AppendEntriesResponse, HeartbeatRequest, LogEntry, VoteRequest,
    VoteResponse,
};
use kraft::raft::node::{Log, PersistentState, Raft, VolatileState};
use kraft::raft::rpc::append_entries::{
    append_converted_entries, append_entries, append_would_overrun, AppendEntriesRequestBody,
    AppendEntriesResponseBody, LogEntryBody,
};
use kraft::raft::rpc::heartbeat::heartbeat;
use kraft::raft::rpc::request_vote::request_vote;

fn node_with(persistent: PersistentState<Vec<u8>>, volatile: VolatileState) -> Raft<Vec<u8>> {
    let mut node: Raft<Vec<u8>> = Raft::new("/tmp");
    node.persistent_data = persistent;
    node.volatile_data = volatile;
    node
}

#[test]
fn test_append_entries_basic() {
    let mut node: Raft<Vec<u8>> = Raft::new("/tmp");
    let response = append_entries(&mut node, AppendEntriesRequest::default());
    assert_eq!(response.term, 0);
    assert_eq!(response.success, false);
}

#[test]
fn test_heartbeat_basic() {
    let node: Raft<Vec<u8>> = Raft::new("/tmp");
    let response = heartbeat(&node, HeartbeatRequest::default());
    assert_eq!(response.term, 0);
    assert_eq!(response.success, false);
}

#[test]
fn test_request_vote_basic() {
    let mut node: Raft<Vec<u8>> = Raft::new("/tmp");
    let response = request_vote(&mut node, VoteRequest::default());
    assert_eq!(response.term, 0);
    assert_eq!(response.vote_granted, true);
}

fn vote_case(
    initial: PersistentState<Vec<u8>>,
    request: (u64, u64, u64, u64),
    expected: (u64, bool),
    expected_state: PersistentState<Vec<u8>>,
) {
    let mut node = node_with(initial, VolatileState { commit_index: 0, last_applied: 0 });
    let response = request_vote(
        &mut node,
        VoteRequest {
            term: request.0,
            candidate_id: request.1,
            last_log_index: request.2,
            last_log_term: request.3,
        },
    );
    assert_eq!(response, VoteResponse { term: expected.0, vote_granted: expected.1 });
    assert_eq!(node.persistent_data, expected_state);
    assert_eq!(node.volatile_data, VolatileState { commit_index: 0, last_applied: 0 });
}

fn state(current_term: u64, voted_for: Option<u64>, terms: &[u64]) -> PersistentState<Vec<u8>> {
    PersistentState { current_term, voted_for, log: terms.iter().map(|t| (*t, vec![])).collect() }
}

#[test]
fn vote_granted_to_any_request_initially() {
    vote_case(state(0, None, &[]), (0, 0, 0, 0), (0, true), state(0, Some(0), &[]));
}

#[test]
fn vote_granted_if_not_voted_yet_and_log_at_least_up_to_date() {
    vote_case(state(0, None, &[]), (1, 0, 0, 0), (1, true), state(1, Some(0), &[]));
}

#[test]
fn vote_denied_for_stale_election_term() {
    vote_case(state(2, None, &[]), (1, 1, 0, 0), (2, false), state(2, None, &[]));
}

#[test]
fn vote_granted_again_to_same_candidate_in_same_term() {
    vote_case(state(2, Some(1), &[]), (2, 1, 0, 0), (2, true), state(2, Some(1), &[]));
}

#[test]
fn vote_denied_if_already_voted_for_other_candidate() {
    vote_case(state(2, Some(3), &[]), (2, 1, 0, 0), (2, false), state(2, Some(3), &[]));
}

#[test]
fn vote_granted_to_same_candidate_in_a_later_term() {
    vote_case(state(0, Some(1), &[]), (2, 1, 0, 0), (2, true), state(2, Some(1), &[]));
}

#[test]
fn vote_granted_to_other_candidate_in_a_later_term() {
    vote_case(state(0, Some(3), &[]), (2, 1, 0, 0), (2, true), state(2, Some(1), &[]));
}

#[test]
fn vote_denied_if_not_voted_and_candidate_log_is_stale() {
    vote_case(state(2, None, &[1]), (2, 1, 0, 0), (2, false), state(2, None, &[1]));
}

#[test]
fn vote_granted_if_not_voted_and_candidate_log_is_the_same() {
    vote_case(state(2, None, &[1]), (2, 1, 1, 1), (2, true), state(2, Some(1), &[1]));
}

#[test]
fn vote_denied_if_candidate_last_log_term_is_earlier() {
    vote_case(state(2, None, &[2]), (2, 1, 1, 1), (2, false), state(2, None, &[2]));
}

#[test]
fn vote_denied_if_candidate_has_fewer_entries() {
    vote_case(state(2, None, &[2, 2]), (2, 1, 1, 2), (2, false), state(2, None, &[2, 2]));
}

#[test]
fn vote_granted_if_candidate_has_more_entries() {
    vote_case(state(1, Some(2), &[2, 2]), (2, 1, 4, 3), (2, true), state(2, Some(1), &[2, 2]));
}

#[test]
fn vote_denied_in_later_term_when_candidate_log_is_more_stale() {
    vote_case(state(2, Some(4), &[2, 2]), (6, 1, 2, 1), (6, false), state(6, Some(4), &[2, 2]));
}

#[test]
fn vote_denied_to_same_candidate_in_this_term_when_its_log_is_stale() {
    vote_case(state(2, Some(1), &[2, 2]), (2, 1, 2, 1), (2, false), state(2, Some(1), &[2, 2]));
}

#[test]
fn vote_denied_to_same_candidate_in_later_term_when_its_log_is_stale() {
    vote_case(state(1, Some(1), &[2, 2]), (2, 1, 2, 1), (2, false), state(2, Some(1), &[2, 2]));
}

#[test]
fn only_one_vote_per_term() {
    let mut node = node_with(state(3, None, &[]), VolatileState::new());
    let first = request_vote(
        &mut node,
        VoteRequest { term: 4, candidate_id: 1, last_log_index: 0, last_log_term: 0 },
    );
    let second = request_vote(
        &mut node,
        VoteRequest { term: 4, candidate_id: 2, last_log_index: 0, last_log_term: 0 },
    );
    assert!(first.vote_granted);
    assert!(!second.vote_granted);
    assert_eq!(node.persistent_data.voted_for, Some(1));
}

#[test]
fn repeated_vote_request_gets_the_same_answer() {
    let mut node = node_with(state(2, Some(4), &[2, 2]), VolatileState::new());
    let request = VoteRequest { term: 6, candidate_id: 1, last_log_index: 2, last_log_term: 1 };
    let first = request_vote(&mut node, request);
    let after_first = node.persistent_data.clone();
    let second = request_vote(&mut node, request);
    assert_eq!(first, second);
    assert_eq!(node.persistent_data, after_first);
}

fn entries(terms: &[u64]) -> Vec<LogEntry> {
    terms.iter().map(|t| LogEntry { term: *t, command: vec![*t as u8] }).collect()
}

fn logs(terms: &[u64]) -> Vec<Log<Vec<u8>>> {
    terms.iter().map(|t| (*t, vec![*t as u8])).collect()
}

fn append_case(
    initial: (u64, Option<u64>, &[u64]),
    volatile: (u64, u64),
    request: (u64, u64, u64, u64, &[u64], u64),
    expected: (u64, bool),
    final_terms: &[u64],
    final_volatile: (u64, u64),
) {
    let mut node = node_with(
        PersistentState { current_term: initial.0, voted_for: initial.1, log: logs(initial.2) },
        VolatileState { commit_index: volatile.0, last_applied: volatile.1 },
    );
    let response = append_entries(
        &mut node,
        AppendEntriesRequest {
            term: request.0,
            leader_id: request.1,
            prev_log_index: request.2,
            prev_log_term: request.3,
            entries: entries(request.4),
            leader_commit_index: request.5,
        },
    );
    assert_eq!(
        response,
        AppendEntriesResponse {
            term: expected.0,
            success: expected.1,
            conflicting_term: 0,
            conflicting_term_first_index: 0,
        }
    );
    assert_eq!(
        node.persistent_data,
        PersistentState { current_term: initial.0, voted_for: initial.1, log: logs(final_terms) }
    );
    assert_eq!(
        node.volatile_data,
        VolatileState { commit_index: final_volatile.0, last_applied: final_volatile.1 }
    );
}

#[test]
fn append_rejected_by_empty_log() {
    append_case((0, None, &[]), (0, 0), (0, 1, 0, 0, &[0], 0), (0, false), &[], (0, 0));
}

#[test]
fn append_rejected_when_previous_entry_is_missing() {
    let log: &[u64] = &[1, 1, 1, 4, 4, 5, 5, 6, 6];
    append_case((6, Some(1), log), (9, 9), (6, 1, 10, 6, &[6, 6], 9), (6, false), log, (9, 9));
}

#[test]
fn append_rejected_when_previous_entry_is_missing_in_older_log() {
    let log: &[u64] = &[1, 1, 1, 4];
    append_case((4, Some(1), log), (3, 3), (6, 1, 10, 6, &[6, 6], 9), (4, false), log, (3, 3));
}

#[test]
fn append_keeps_held_entries_and_appends_new_ones() {
    append_case(
        (6, Some(1), &[1, 1, 1, 4, 4, 5, 5, 6, 6, 6, 6]),
        (9, 9),
        (6, 1, 10, 6, &[6, 6], 11),
        (6, true),
        &[1, 1, 1, 4, 4, 5, 5, 6, 6, 6, 6, 6],
        (11, 9),
    );
}

#[test]
fn append_rejected_for_stale_leader_term() {
    append_case((5, None, &[1, 2]), (1, 0), (4, 1, 0, 1, &[4], 3), (5, false), &[1, 2], (1, 0));
}

fn conflict_case(
    log: &[u64],
    commit_index: u64,
    request: (u64, u64, &[u64], u64),
    conflicting: (u64, u64),
    kept: &[u64],
) {
    let mut node = node_with(
        PersistentState { current_term: 3, voted_for: None, log: logs(log) },
        VolatileState { commit_index, last_applied: 0 },
    );
    let response = append_entries(
        &mut node,
        AppendEntriesRequest {
            term: 3,
            leader_id: 1,
            prev_log_index: request.0,
            prev_log_term: request.1,
            entries: entries(request.2),
            leader_commit_index: request.3,
        },
    );
    assert_eq!(
        response,
        AppendEntriesResponse {
            term: 3,
            success: false,
            conflicting_term: conflicting.0,
            conflicting_term_first_index: conflicting.1,
        }
    );
    assert_eq!(node.persistent_data.log, logs(kept));
    assert_eq!(node.volatile_data, VolatileState { commit_index, last_applied: 0 });
}

#[test]
fn append_drops_entries_after_a_conflict() {
    // The entry at index 1 is in term 2, the leader expects term 3: the
    // request is refused, and every entry after the last entry in term 2 is
    // dropped.
    conflict_case(&[1, 2, 2, 3, 3], 0, (1, 3, &[3], 1), (2, 1), &[1, 2, 2, 3]);
}

#[test]
fn append_conflict_keeps_the_commit_index() {
    conflict_case(&[1, 1, 1, 4, 4, 4], 5, (0, 9, &[2], 7), (1, 0), &[1, 1, 1, 4]);
}

#[test]
fn append_commit_index_never_goes_back_past_a_short_log() {
    append_case((2, None, &[1]), (5, 0), (2, 1, 0, 1, &[1, 1], 7), (2, true), &[1, 1], (5, 0));
}

#[test]
fn append_with_nothing_new_moves_commit_index_to_leader() {
    append_case((2, None, &[1, 2, 2]), (0, 0), (2, 1, 1, 2, &[2], 5), (2, true), &[1, 2, 2], (5, 0));
}

#[test]
fn append_caps_commit_index_at_last_new_entry() {
    append_case((2, None, &[1, 2]), (0, 0), (2, 1, 1, 2, &[2, 2], 10), (2, true), &[1, 2, 2], (2, 0));
}

#[test]
fn append_never_lowers_commit_index() {
    append_case((2, None, &[1, 2]), (1, 0), (2, 1, 0, 1, &[], 0), (2, true), &[1, 2], (1, 0));
}

#[test]
fn append_overrun_is_detected_before_the_call() {
    // The entry at index 1 is in the last term of the log and is not the term
    // the leader expects: the conflict check would remove past the end of the log.
    let node = node_with(
        PersistentState { current_term: 2, voted_for: None, log: logs(&[1, 2]) },
        VolatileState::new(),
    );
    let overrun = AppendEntriesRequest {
        term: 2,
        leader_id: 1,
        prev_log_index: 1,
        prev_log_term: 3,
        entries: vec![],
        leader_commit_index: 0,
    };
    assert!(append_would_overrun(&node, &overrun));
    let fine = AppendEntriesRequest { prev_log_term: 2, ..overrun.clone() };
    assert!(!append_would_overrun(&node, &fine));
    let stale = AppendEntriesRequest { term: 1, ..overrun };
    assert!(!append_would_overrun(&node, &stale));
}

#[test]
fn converted_entries_are_appended_as_given() {
    let mut node = node_with(
        PersistentState { current_term: 1, voted_for: None, log: logs(&[1]) },
        VolatileState::new(),
    );
    // The first entry is checked against the entry at prevLogIndex itself.
    let response = append_converted_entries(&mut node, 1, 0, 1, vec![(1, vec![9])], 0);
    assert!(response.success);
    assert_eq!(node.persistent_data.log, vec![(1, vec![1])]);
    let response = append_converted_entries(&mut node, 1, 0, 1, vec![(1, vec![1]), (1, vec![9])], 0);
    assert!(response.success);
    assert_eq!(node.persistent_data.log, vec![(1, vec![1]), (1, vec![9])]);
}

#[test]
fn request_body_reports_the_request() {
    let request = AppendEntriesRequest {
        term: 3,
        leader_id: 2,
        prev_log_index: 1,
        prev_log_term: 1,
        entries: entries(&[3, 3]),
        leader_commit_index: 4,
    };
    let body = AppendEntriesRequestBody::from_request(&request);
    assert_eq!(body.term, 3);
    assert_eq!(body.leader_id, 2);
    assert_eq!(body.prev_log_index, 1);
    assert_eq!(body.prev_log_term, 1);
    assert_eq!(body.leader_commit_index, 4);
    assert_eq!(
        body.entries,
        vec![LogEntryBody { term: 3, command: vec![3] }, LogEntryBody { term: 3, command: vec![3] }]
    );
    let response = AppendEntriesResponse {
        term: 3,
        success: false,
        conflicting_term: 2,
        conflicting_term_first_index: 5,
    };
    let body = AppendEntriesResponseBody::from_response(&response);
    assert_eq!(body.conflicting_term, 2);
    assert_eq!(body.conflicting_term_first_index, 5);
}

#[test]
fn log_entry_converts_to_and_from_a_message() {
    let log: (u64, Vec<u8>) = LogEntry { term: 5, command: vec![1, 2] }.into();
    assert_eq!(log, (5, vec![1, 2]));
    let entry: LogEntry = (6u64, vec![3u8]).into();
    assert_eq!(entry, LogEntry { term: 6, command: vec![3] });
}
