//! The RequestVote RPC between servers.

use vstd::prelude::*;
use crate::election::PersistentState;

verus! {

/// Invoked by a candidate to gather votes.
#[derive(Clone, Copy, Default, Debug, PartialEq, Eq)]
pub struct RequestVoteRequest {
    /// The candidate's term.
    pub term: usize,
    /// The candidate's id.
    pub candidate_id: usize,
    /// The index of the candidate's last log entry.
    pub last_log_index: usize,
    /// The term of the candidate's last log entry.
    pub last_log_term: usize,
}

/// Returned by followers when a candidate requests a vote.
#[derive(Clone, Copy, Default, Debug, PartialEq, Eq)]
pub struct RequestVoteResponse {
    /// The current term, for the candidate to update itself.
    pub term: usize,
    /// True means the candidate received the vote.
    pub vote_granted: bool,
}

impl RequestVoteRequest {
    pub fn new(term: usize, candidate_id: usize, last_log_index: usize, last_log_term: usize) -> (request: Self)
        ensures
            request == (RequestVoteRequest { term, candidate_id, last_log_index, last_log_term }),
    {
        RequestVoteRequest { term, candidate_id, last_log_index, last_log_term }
    }
}

/// Whether a server in `state` grants its vote for `request`: the candidate
/// is not in an older term, its last log index is at or past the end of the
/// server's log, and the server has not voted for another candidate.
pub open spec fn vote_granted(state: PersistentState, request: RequestVoteRequest) -> bool {
    &&& request.term >= state.current_term
    &&& request.last_log_index >= state.log@.len()
    &&& (state.voted_for is None || state.voted_for == Some(request.candidate_id))
}

/// Given the state of a server and a RequestVote request, decides whether the
/// server grants its vote, and records the vote when it does. The term of
/// the server does not change, and it answers with it. It also says whether
/// the state must be stored before the response is sent: exactly when the
/// vote was granted.
pub fn process(state: &mut PersistentState, request: RequestVoteRequest) -> (answer: (RequestVoteResponse, bool))
    ensures
        answer.0.term == old(state).current_term,
        answer.0.vote_granted == vote_granted(*old(state), request),
        answer.1 == answer.0.vote_granted,
        answer.0.vote_granted ==> request.term >= old(state).current_term,
        answer.0.vote_granted ==> request.last_log_index >= old(state).log@.len(),
        answer.0.vote_granted ==> old(state).voted_for is None || old(state).voted_for == Some(
            request.candidate_id,
        ),
        final(state).voted_for == (if answer.0.vote_granted {
            Some(request.candidate_id)
        } else {
            old(state).voted_for
        }),
        final(state).current_term == old(state).current_term,
        final(state).participant_type == old(state).participant_type,
        final(state).log == old(state).log,
{
    let response = decide_vote(state, request);
    (response, response.vote_granted)
}

/// The vote decision itself, recording a granted vote in `state`.
fn decide_vote(state: &mut PersistentState, request: RequestVoteRequest) -> (response: RequestVoteResponse)
    ensures
        response.term == old(state).current_term,
        response.vote_granted == vote_granted(*old(state), request),
        final(state).voted_for == (if response.vote_granted {
            Some(request.candidate_id)
        } else {
            old(state).voted_for
        }),
        final(state).current_term == old(state).current_term,
        final(state).participant_type == old(state).participant_type,
        final(state).log == old(state).log,
{
    if request.term < state.current_term {
        return RequestVoteResponse { term: state.current_term, vote_granted: false };
    }
    match state.voted_for {
        Some(chosen_candidate) => {
            if chosen_candidate == request.candidate_id && request.last_log_index
                >= state.log.len() {
                state.voted_for = Some(request.candidate_id);
                return RequestVoteResponse { term: state.current_term, vote_granted: true };
            }
            RequestVoteResponse { term: state.current_term, vote_granted: false }
        },
        None => {
            if request.last_log_index >= state.log.len() {
                state.voted_for = Some(request.candidate_id);
                return RequestVoteResponse { term: state.current_term, vote_granted: true };
            }
            RequestVoteResponse { term: state.current_term, vote_granted: false }
        },
    }
}

/// A server grants its vote only to a candidate that is not in an older term
/// and whose last log index is at or past the end of the server's log,
/// whether or not the server already voted for that candidate.
pub proof fn lemma_granted_vote_needs_caught_up_log(state: PersistentState, request: RequestVoteRequest)
    requires
        vote_granted(state, request),
    ensures
        request.term >= state.current_term,
        request.last_log_index >= state.log@.len(),
{
}

/// Once a server has voted, its vote never moves to another candidate, and
/// it never grants a vote to another candidate.
pub proof fn lemma_vote_is_final(state: PersistentState, request: RequestVoteRequest)
    requires
        state.voted_for is Some,
        state.voted_for != Some(request.candidate_id),
    ensures
        !vote_granted(state, request),
{
}

} // verus!
