//! The RequestVote RPC: whether a node grants its vote to a candidate, and
//! how its persistent state changes as it answers.

use vstd::prelude::*;
use crate::proto::{VoteRequest, VoteResponse};
use crate::raft::node::{Int, Log, PersistentState, Raft};

verus! {

/// Whether a candidate whose last log entry has index `last_log_index` and
/// term `last_log_term` holds a log at least as up-to-date as `log`: its
/// last index is at or past the end of `log`, and its last term is at least
/// the term of the last entry of `log`, if there is one.
pub open spec fn candidate_log_is_up_to_date<T>(
    log: Seq<Log<T>>,
    last_log_index: Int,
    last_log_term: Int,
) -> bool {
    &&& last_log_index >= log.len()
    &&& (log.len() == 0 || last_log_term >= log.last().0)
}

/// Whether a node in `state` grants its vote for `request`: the candidate is
/// not in an older term, its log is at least as up-to-date, and the node has
/// not voted for another candidate in the candidate's term.
pub open spec fn vote_granted<T>(state: PersistentState<T>, request: VoteRequest) -> bool {
    &&& request.term >= state.current_term
    &&& candidate_log_is_up_to_date(state.log@, request.last_log_index, request.last_log_term)
    &&& (state.voted_for is None || state.voted_for == Some(request.candidate_id) || request.term
        > state.current_term)
}

/// The persistent state of a node after it answers `request`: it moves to the
/// candidate's term if that term is newer, and records its vote if it grants
/// it; its log does not change.
pub open spec fn state_after_vote<T>(state: PersistentState<T>, request: VoteRequest) -> PersistentState<T> {
    PersistentState {
        log: state.log,
        current_term: if request.term > state.current_term {
            request.term
        } else {
            state.current_term
        },
        voted_for: if vote_granted(state, request) {
            Some(request.candidate_id)
        } else {
            state.voted_for
        },
    }
}

/// The answer of a node in `state` to `request`: its term after the request,
/// and whether it granted its vote.
pub open spec fn vote_response<T>(state: PersistentState<T>, request: VoteRequest) -> VoteResponse {
    VoteResponse {
        term: state_after_vote(state, request).current_term,
        vote_granted: vote_granted(state, request),
    }
}

/// Given a node that receives a RequestVote RPC, decides whether it grants its
/// vote to the candidate and updates its persistent state accordingly. The
/// caller stores the new persistent state before it sends the response.
pub fn request_vote<T>(node: &mut Raft<T>, request: VoteRequest) -> (response: VoteResponse)
    ensures
        response == vote_response(old(node).persistent_data, request),
        final(node).persistent_data == state_after_vote(old(node).persistent_data, request),
        response.vote_granted ==> request.term >= old(node).persistent_data.current_term,
        response.vote_granted ==> request.last_log_index >= old(node).persistent_data.log@.len(),
        response.vote_granted && old(node).persistent_data.log@.len() > 0 ==> request.last_log_term
            >= old(node).persistent_data.log@[old(node).persistent_data.log@.len() - 1].0,
        final(node).meta == old(node).meta,
        final(node).cluster == old(node).cluster,
        final(node).volatile_data == old(node).volatile_data,
        final(node).node_state == old(node).node_state,
{
    let term = request.term;
    let candidate_id = request.candidate_id;
    let last_log_index = request.last_log_index;
    let last_log_term = request.last_log_term;
    let current_term = node.persistent_data.current_term;

    // The requesting node is out of date with the latest election term.
    if term < current_term {
        return VoteResponse { term: current_term, vote_granted: false };
    }
    let num_entries = node.persistent_data.log.len() as u64;
    let candidate_log_is_up_to_date = last_log_index >= num_entries && (
    node.persistent_data.log.len() == 0 || last_log_term >= node.persistent_data.log[node.persistent_data.log.len() - 1].0);

    match node.persistent_data.voted_for {
        Some(voted_for) => {
            if voted_for != candidate_id {
                if current_term == term {
                    // Already voted for another candidate in this term.
                    VoteResponse { term: current_term, vote_granted: false }
                } else if candidate_log_is_up_to_date {
                    node.persistent_data.current_term = term;
                    node.persistent_data.voted_for = Some(candidate_id);
                    VoteResponse { term, vote_granted: true }
                } else {
                    node.persistent_data.current_term = term;
                    VoteResponse { term, vote_granted: false }
                }
            } else if current_term == term {
                // The candidate asks again, in the same term.
                VoteResponse { term, vote_granted: candidate_log_is_up_to_date }
            } else if candidate_log_is_up_to_date {
                node.persistent_data.current_term = term;
                node.persistent_data.voted_for = Some(candidate_id);
                VoteResponse { term, vote_granted: true }
            } else {
                node.persistent_data.current_term = term;
                VoteResponse { term, vote_granted: false }
            }
        },
        None => {
            if candidate_log_is_up_to_date {
                node.persistent_data.current_term = term;
                node.persistent_data.voted_for = Some(candidate_id);
                VoteResponse { term, vote_granted: true }
            } else {
                node.persistent_data.current_term = term;
                VoteResponse { term, vote_granted: false }
            }
        },
    }
}

/// A node's term never goes back when it answers a vote request, and the
/// term it answers with is the term it is in afterwards.
pub proof fn lemma_vote_term_monotonic<T>(state: PersistentState<T>, request: VoteRequest)
    ensures
        state_after_vote(state, request).current_term >= state.current_term,
        state_after_vote(state, request).current_term >= request.term,
        vote_response(state, request).term == state_after_vote(state, request).current_term,
{
}

/// A granted vote goes to a candidate whose log is at least as up-to-date,
/// in the candidate's own term, and is recorded as this node's vote.
pub proof fn lemma_granted_vote_is_recorded<T>(state: PersistentState<T>, request: VoteRequest)
    requires
        vote_response(state, request).vote_granted,
    ensures
        candidate_log_is_up_to_date(state.log@, request.last_log_index, request.last_log_term),
        state_after_vote(state, request).current_term == request.term,
        state_after_vote(state, request).voted_for == Some(request.candidate_id),
        vote_response(state, request).term == request.term,
{
}

/// A node grants its vote only to a candidate that is not in an older term,
/// whose last log index is at or past the end of the node's log, and whose
/// last log term is at least the term of the node's last entry.
pub proof fn lemma_granted_vote_needs_up_to_date_candidate<T>(state: PersistentState<T>, request: VoteRequest)
    requires
        vote_response(state, request).vote_granted,
    ensures
        request.term >= state.current_term,
        request.last_log_index >= state.log@.len(),
        state.log@.len() > 0 ==> request.last_log_term >= state.log@[state.log@.len() - 1].0,
{
}

/// A request from a candidate in an older term is denied and changes nothing.
pub proof fn lemma_stale_vote_request_is_denied<T>(state: PersistentState<T>, request: VoteRequest)
    requires
        request.term < state.current_term,
    ensures
        !vote_response(state, request).vote_granted,
        vote_response(state, request).term == state.current_term,
        state_after_vote(state, request) == state,
{
}

/// A node votes for at most one candidate per term: once it granted its vote
/// to one candidate, a request from another candidate in the same term is
/// denied.
pub proof fn lemma_one_vote_per_term<T>(
    state: PersistentState<T>,
    first: VoteRequest,
    second: VoteRequest,
)
    requires
        vote_response(state, first).vote_granted,
        second.term == first.term,
        second.candidate_id != first.candidate_id,
    ensures
        !vote_response(state_after_vote(state, first), second).vote_granted,
{
}

/// Answering the same vote request twice gives the same answer and leaves
/// the node in the same state as answering it once.
pub proof fn lemma_vote_is_idempotent<T>(state: PersistentState<T>, request: VoteRequest)
    ensures
        vote_response(state_after_vote(state, request), request) == vote_response(state, request),
        state_after_vote(state_after_vote(state, request), request) == state_after_vote(
            state,
            request,
        ),
{
}

} // verus!
