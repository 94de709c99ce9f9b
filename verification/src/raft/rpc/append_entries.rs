//! The AppendEntries RPC: how a follower checks a leader's entries against
//! its log, what it keeps, what it appends, and how far it commits.

use vstd::prelude::*;
use crate::proto::{copy_bytes, AppendEntriesRequest, AppendEntriesResponse, LogEntry};
use crate::raft::node::{Int, Log, PersistentState, Raft, RaftLogEntry, VolatileState};

verus! {

/// A log entry as it is reported to a monitor.
#[derive(Clone, Debug, PartialEq, Eq)]
pub struct LogEntryBody {
    pub term: u64,
    pub command: Vec<u8>,
}

/// An AppendEntries request as it is reported to a monitor.
#[derive(Clone, Debug, PartialEq, Eq)]
pub struct AppendEntriesRequestBody {
    /// The election term that the leader node is in.
    pub term: u64,
    /// The ID of the leader so that a follower can redirect clients.
    pub leader_id: u64,
    /// The index of the log entry immediately preceding the new ones.
    pub prev_log_index: u64,
    /// The term of the entry at `prev_log_index`.
    pub prev_log_term: u64,
    /// The log entries to store.
    pub entries: Vec<LogEntryBody>,
    /// The leader's commit index.
    pub leader_commit_index: u64,
}

/// An AppendEntries response as it is reported to a monitor.
#[derive(Clone, Copy, Debug, PartialEq, Eq)]
pub struct AppendEntriesResponseBody {
    /// The current term, for the leader to update itself.
    pub term: u64,
    /// True if the follower held an entry matching `prev_log_index` and `prev_log_term`.
    pub success: bool,
    /// The term of the earliest conflicting entry, if unsuccessful.
    pub conflicting_term: u64,
    /// The index of the first entry in the conflicting term, if unsuccessful.
    pub conflicting_term_first_index: u64,
}

impl LogEntryBody {
    /// The report of `entry`: its term and a copy of its command.
    pub fn from_entry(entry: &LogEntry) -> (body: Self)
        ensures
            body.term == entry.term,
            body.command@ == entry.command@,
    {
        LogEntryBody { term: entry.term, command: copy_bytes(&entry.command) }
    }
}

impl AppendEntriesRequestBody {
    /// The report of `request`: its fields, and a report of each of its entries.
    pub fn from_request(request: &AppendEntriesRequest) -> (body: Self)
        ensures
            body.term == request.term,
            body.leader_id == request.leader_id,
            body.prev_log_index == request.prev_log_index,
            body.prev_log_term == request.prev_log_term,
            body.leader_commit_index == request.leader_commit_index,
            body.entries@.len() == request.entries@.len(),
            forall|i: int|
                0 <= i < body.entries@.len() ==> #[trigger] body.entries@[i].term
                    == request.entries@[i].term && body.entries@[i].command@
                    == request.entries@[i].command@,
    {
        let mut entries: Vec<LogEntryBody> = Vec::new();
        let mut i: usize = 0;
        while i < request.entries.len()
            invariant
                i <= request.entries@.len(),
                entries@.len() == i,
                forall|j: int|
                    0 <= j < i ==> #[trigger] entries@[j].term == request.entries@[j].term
                        && entries@[j].command@ == request.entries@[j].command@,
            decreases request.entries@.len() - i,
        {
            entries.push(LogEntryBody::from_entry(&request.entries[i]));
            i = i + 1;
        }
        AppendEntriesRequestBody {
            term: request.term,
            leader_id: request.leader_id,
            prev_log_index: request.prev_log_index,
            prev_log_term: request.prev_log_term,
            entries,
            leader_commit_index: request.leader_commit_index,
        }
    }
}

impl AppendEntriesResponseBody {
    /// The report of `response`: its fields.
    pub fn from_response(response: &AppendEntriesResponse) -> (body: Self)
        ensures
            body == (AppendEntriesResponseBody {
                term: response.term,
                success: response.success,
                conflicting_term: response.conflicting_term,
                conflicting_term_first_index: response.conflicting_term_first_index,
            }),
    {
        AppendEntriesResponseBody {
            term: response.term,
            success: response.success,
            conflicting_term: response.conflicting_term,
            conflicting_term_first_index: response.conflicting_term_first_index,
        }
    }
}

/// The index of the first entry at or after `from` whose term is above
/// `term`, or the length of `log` if there is none.
pub open spec fn first_term_above_from<T>(log: Seq<Log<T>>, term: Int, from: int) -> int
    decreases log.len() - from,
{
    if from >= log.len() {
        log.len() as int
    } else if log[from].0 > term {
        from
    } else {
        first_term_above_from(log, term, from + 1)
    }
}

/// The index of the first entry at or after `from` whose term is `term`, or
/// the length of `log` if there is none.
pub open spec fn first_index_of_term_from<T>(log: Seq<Log<T>>, term: Int, from: int) -> int
    decreases log.len() - from,
{
    if from >= log.len() {
        log.len() as int
    } else if log[from].0 == term {
        from
    } else {
        first_index_of_term_from(log, term, from + 1)
    }
}

/// The index of the first entry of `log` in term `term`, or the length of
/// `log` if there is none.
pub open spec fn first_index_of_term<T>(log: Seq<Log<T>>, term: Int) -> int {
    first_index_of_term_from(log, term, 0)
}

/// The index of the first entry of `log` whose term is above `term`, or the
/// length of `log` if there is none. On a log whose terms never decrease
/// this is the partition point of the entries with a term at most `term`.
pub open spec fn first_term_above<T>(log: Seq<Log<T>>, term: Int) -> int {
    first_term_above_from(log, term, 0)
}

/// The log after the check of the entry at `prev_log_index` (which exists):
/// if its term differs from `prev_log_term`, every entry after the last
/// entry whose term is at most that entry's term is removed.
pub open spec fn log_after_conflict_check<T>(
    log: Seq<Log<T>>,
    prev_log_index: int,
    prev_log_term: Int,
) -> Seq<Log<T>> {
    if log[prev_log_index].0 != prev_log_term {
        log.take(first_term_above(log, log[prev_log_index].0) + 1)
    } else {
        log
    }
}

/// Whether the check of the entry at `prev_log_index` would remove entries
/// from past the end of `log`: the entry's term differs from
/// `prev_log_term`, and no entry has a term above it.
pub open spec fn conflict_check_overruns<T>(
    log: Seq<Log<T>>,
    prev_log_index: int,
    prev_log_term: Int,
) -> bool {
    &&& log[prev_log_index].0 != prev_log_term
    &&& first_term_above(log, log[prev_log_index].0) >= log.len()
}

/// The first index `i` at or after `from` such that `log` has no entry at
/// `prev_log_index + i`, or has one whose term differs from that of
/// `entries[i]`; the length of `entries` if there is none.
pub open spec fn first_new_entry_from<T>(
    log: Seq<Log<T>>,
    prev_log_index: int,
    entries: Seq<Log<T>>,
    from: int,
) -> int
    decreases entries.len() - from,
{
    if from >= entries.len() {
        entries.len() as int
    } else if prev_log_index + from >= log.len() || log[prev_log_index + from].0
        != entries[from].0 {
        from
    } else {
        first_new_entry_from(log, prev_log_index, entries, from + 1)
    }
}

/// The first of `entries` that `log` does not already hold at its place
/// after `prev_log_index`; the length of `entries` if `log` holds them all.
pub open spec fn first_new_entry<T>(log: Seq<Log<T>>, prev_log_index: int, entries: Seq<Log<T>>) -> int {
    first_new_entry_from(log, prev_log_index, entries, 0)
}

/// Whether a follower with `state` rejects a request in term `term` whose
/// previous entry is at `prev_log_index` without looking at its log's terms:
/// the leader is in an older term, or the follower's log has no entry at
/// `prev_log_index`.
pub open spec fn append_rejected<T>(state: PersistentState<T>, term: Int, prev_log_index: Int) -> bool {
    term < state.current_term || state.log@.len() <= prev_log_index
}

/// Whether the follower holds an entry at `prev_log_index`, for a leader that
/// is not in an older term, but that entry is in another term than
/// `prev_log_term`.
pub open spec fn append_conflicts<T>(
    state: PersistentState<T>,
    term: Int,
    prev_log_index: Int,
    prev_log_term: Int,
) -> bool {
    &&& !append_rejected(state, term, prev_log_index)
    &&& state.log@[prev_log_index as int].0 != prev_log_term
}

/// Whether the follower accepts the request: the leader is not in an older
/// term, and the follower holds an entry at `prev_log_index` whose term is
/// `prev_log_term`.
pub open spec fn append_accepted<T>(
    state: PersistentState<T>,
    term: Int,
    prev_log_index: Int,
    prev_log_term: Int,
) -> bool {
    &&& !append_rejected(state, term, prev_log_index)
    &&& state.log@[prev_log_index as int].0 == prev_log_term
}

/// The follower's log after it accepts entries: its log, followed by the
/// entries from the first one it did not already hold.
pub open spec fn log_after_append<T>(log: Seq<Log<T>>, prev_log_index: Int, entries: Seq<Log<T>>) -> Seq<Log<T>> {
    let first_new = first_new_entry(log, prev_log_index as int, entries);
    if first_new < entries.len() {
        log + entries.skip(first_new)
    } else {
        log
    }
}

/// The follower's commit index after it accepts entries. It moves only when
/// the leader's commit index is higher, towards the leader's commit index,
/// capped at the index of the last entry when new entries were appended; it
/// never goes back.
pub open spec fn commit_index_after_append<T>(
    log: Seq<Log<T>>,
    commit_index: Int,
    prev_log_index: Int,
    entries: Seq<Log<T>>,
    leader_commit_index: Int,
) -> Int {
    let first_new = first_new_entry(log, prev_log_index as int, entries);
    let last_new = log_after_append(log, prev_log_index, entries).len() - 1;
    let target = if first_new < entries.len() && last_new < leader_commit_index {
        last_new
    } else {
        leader_commit_index as int
    };
    if leader_commit_index > commit_index && target > commit_index {
        target as Int
    } else {
        commit_index
    }
}

/// The follower's answer: its current term; success exactly when it accepts
/// the request; and, when its entry at `prev_log_index` is in another term,
/// that term and the index of the first entry of its log in that term.
pub open spec fn append_response<T>(
    state: PersistentState<T>,
    term: Int,
    prev_log_index: Int,
    prev_log_term: Int,
) -> AppendEntriesResponse {
    if append_conflicts(state, term, prev_log_index, prev_log_term) {
        let conflicting_term = state.log@[prev_log_index as int].0;
        AppendEntriesResponse {
            term: state.current_term,
            success: false,
            conflicting_term,
            conflicting_term_first_index: first_index_of_term(state.log@, conflicting_term) as u64,
        }
    } else {
        AppendEntriesResponse {
            term: state.current_term,
            success: append_accepted(state, term, prev_log_index, prev_log_term),
            conflicting_term: 0,
            conflicting_term_first_index: 0,
        }
    }
}

/// Whether the follower would panic on this request: its entry at
/// `prev_log_index` conflicts, and the conflict check would remove entries
/// from past the end of its log.
pub open spec fn append_overruns<T>(
    state: PersistentState<T>,
    term: Int,
    prev_log_index: Int,
    prev_log_term: Int,
) -> bool {
    &&& !append_rejected(state, term, prev_log_index)
    &&& conflict_check_overruns(state.log@, prev_log_index as int, prev_log_term)
}

/// Finds the first entry of `log` in term `term`.
fn find_first_index_of_term<T>(log: &Vec<Log<T>>, term: Int) -> (index: usize)
    ensures
        index == first_index_of_term(log@, term),
{
    let mut i: usize = 0;
    while i < log.len()
        invariant
            i <= log.len(),
            first_index_of_term(log@, term) == first_index_of_term_from(log@, term, i as int),
        decreases log.len() - i,
    {
        if log[i].0 == term {
            return i;
        }
        i = i + 1;
    }
    i
}

/// Finds the first entry of `log` whose term is above `term`.
fn find_first_term_above<T>(log: &Vec<Log<T>>, term: Int) -> (index: usize)
    ensures
        index == first_term_above(log@, term),
{
    let mut i: usize = 0;
    while i < log.len()
        invariant
            i <= log.len(),
            first_term_above(log@, term) == first_term_above_from(log@, term, i as int),
        decreases log.len() - i,
    {
        if log[i].0 > term {
            return i;
        }
        i = i + 1;
    }
    i
}

/// Whether `node` would panic on `request`: it accepts the request, and the
/// conflict check would remove entries from past the end of its log. Callers
/// of `append_entries` test this first.
pub fn append_would_overrun<T>(node: &Raft<T>, request: &AppendEntriesRequest) -> (overruns: bool)
    ensures
        overruns == append_overruns(
            node.persistent_data,
            request.term,
            request.prev_log_index,
            request.prev_log_term,
        ),
{
    if request.term < node.persistent_data.current_term {
        return false;
    }
    if (node.persistent_data.log.len() as u64) <= request.prev_log_index {
        return false;
    }
    let prev = request.prev_log_index as usize;
    let stored_term = node.persistent_data.log[prev].0;
    if stored_term == request.prev_log_term {
        return false;
    }
    find_first_term_above(&node.persistent_data.log, stored_term) >= node.persistent_data.log.len()
}

/// Finds the first of `entries` that `log` does not hold at its place after
/// `prev_log_index`.
fn find_first_new_entry<T>(log: &Vec<Log<T>>, prev_log_index: usize, entries: &Vec<Log<T>>) -> (index: usize)
    requires
        prev_log_index + entries.len() <= usize::MAX,
    ensures
        index == first_new_entry(log@, prev_log_index as int, entries@),
{
    let mut i: usize = 0;
    while i < entries.len()
        invariant
            i <= entries.len(),
            prev_log_index + entries.len() <= usize::MAX,
            first_new_entry(log@, prev_log_index as int, entries@) == first_new_entry_from(
                log@,
                prev_log_index as int,
                entries@,
                i as int,
            ),
        decreases entries.len() - i,
    {
        let at = prev_log_index + i;
        if at >= log.len() {
            return i;
        }
        if log[at].0 != entries[i].0 {
            return i;
        }
        i = i + 1;
    }
    i
}

/// Given a follower that receives entries (already converted to its log's
/// command type) from a leader in term `term`, checks them against its log,
/// appends those it does not hold, and moves its commit index up.
///
/// The request is rejected, with nothing changed, when the leader is in an
/// older term or the follower has no entry at `prev_log_index`. When the
/// follower's entry at `prev_log_index` is in another term than
/// `prev_log_term`, the request is rejected too: the follower drops every
/// entry after the last one whose term is at most that entry's, and answers
/// with that term and the index of the first entry of its log in that term.
/// Otherwise the follower accepts: it appends the entries from the first one
/// it does not already hold at its place, and moves its commit index towards
/// the leader's when that is higher, capped at its last new entry. Its term and vote never
/// change, and its commit index never goes back. The caller stores the new
/// persistent state before it sends the response.
pub fn append_converted_entries<T>(
    node: &mut Raft<T>,
    term: Int,
    prev_log_index: Int,
    prev_log_term: Int,
    entries: Vec<Log<T>>,
    leader_commit_index: Int,
) -> (response: AppendEntriesResponse)
    requires
        !append_overruns(old(node).persistent_data, term, prev_log_index, prev_log_term),
        old(node).persistent_data.log@.len() + entries@.len() <= usize::MAX,
    ensures
        response == append_response(old(node).persistent_data, term, prev_log_index, prev_log_term),
        append_rejected(old(node).persistent_data, term, prev_log_index) ==> {
            &&& final(node).persistent_data == old(node).persistent_data
            &&& final(node).volatile_data == old(node).volatile_data
        },
        append_conflicts(old(node).persistent_data, term, prev_log_index, prev_log_term) ==> {
            &&& final(node).persistent_data.log@ == log_after_conflict_check(
                old(node).persistent_data.log@,
                prev_log_index as int,
                prev_log_term,
            )
            &&& final(node).volatile_data == old(node).volatile_data
        },
        append_accepted(old(node).persistent_data, term, prev_log_index, prev_log_term) ==> {
            &&& final(node).persistent_data.log@ == log_after_append(
                old(node).persistent_data.log@,
                prev_log_index,
                entries@,
            )
            &&& final(node).volatile_data.commit_index == commit_index_after_append(
                old(node).persistent_data.log@,
                old(node).volatile_data.commit_index,
                prev_log_index,
                entries@,
                leader_commit_index,
            )
            &&& final(node).volatile_data.last_applied == old(node).volatile_data.last_applied
        },
        final(node).persistent_data.current_term == old(node).persistent_data.current_term,
        final(node).persistent_data.voted_for == old(node).persistent_data.voted_for,
        final(node).volatile_data.commit_index >= old(node).volatile_data.commit_index,
        final(node).volatile_data.commit_index == old(node).volatile_data.commit_index
            || final(node).volatile_data.commit_index <= leader_commit_index,
        final(node).persistent_data.log@.len() > old(node).persistent_data.log@.len() ==> (
        final(node).volatile_data.commit_index == old(node).volatile_data.commit_index
            || final(node).volatile_data.commit_index < final(node).persistent_data.log@.len()),
        final(node).meta == old(node).meta,
        final(node).cluster == old(node).cluster,
        final(node).node_state == old(node).node_state,
{
    let current_term = node.persistent_data.current_term;
    // Reply false if term < currentTerm.
    if term < current_term {
        return AppendEntriesResponse {
            term: current_term,
            success: false,
            conflicting_term: 0,
            conflicting_term_first_index: 0,
        };
    }
    // Reply false if the log has no entry at prevLogIndex.
    if (node.persistent_data.log.len() as u64) <= prev_log_index {
        return AppendEntriesResponse {
            term: current_term,
            success: false,
            conflicting_term: 0,
            conflicting_term_first_index: 0,
        };
    }
    let prev = prev_log_index as usize;
    let stored_term = node.persistent_data.log[prev].0;
    let ghost original = node.persistent_data.log@;

    // Reply false if the entry at prevLogIndex is in another term than
    // requested, after dropping the entries past the conflicting term.
    if stored_term != prev_log_term {
        let conflicting_term_first_index = find_first_index_of_term(&node.persistent_data.log, stored_term);
        let kept = find_first_term_above(&node.persistent_data.log, stored_term) + 1;
        node.persistent_data.log.truncate(kept);
        assert(node.persistent_data.log@ =~= log_after_conflict_check(original, prev as int, prev_log_term));
        return AppendEntriesResponse {
            term: current_term,
            success: false,
            conflicting_term: stored_term,
            conflicting_term_first_index: conflicting_term_first_index as u64,
        };
    }

    // Append any new entries not already in the log.
    let first_new = find_first_new_entry(&node.persistent_data.log, prev, &entries);
    let mut new_entries = entries;
    let commit_index = node.volatile_data.commit_index;
    if first_new < new_entries.len() {
        let mut appended = new_entries.split_off(first_new);
        node.persistent_data.log.append(&mut appended);
        let index_of_last_new_entry = (node.persistent_data.log.len() - 1) as u64;
        if leader_commit_index > commit_index {
            let target = if leader_commit_index < index_of_last_new_entry {
                leader_commit_index
            } else {
                index_of_last_new_entry
            };
            if target > commit_index {
                node.volatile_data.commit_index = target;
            }
        }
    } else if leader_commit_index > commit_index {
        node.volatile_data.commit_index = leader_commit_index;
    }
    assert(node.persistent_data.log@ =~= log_after_append(original, prev_log_index, entries@));
    AppendEntriesResponse {
        term: current_term,
        success: true,
        conflicting_term: 0,
        conflicting_term_first_index: 0,
    }
}

/// Whether `converted` is what converting each of `entries` into a log entry
/// gives: the same terms, and as each command what `T::from` returned for the
/// entry's command.
pub open spec fn entries_converted<T: RaftLogEntry>(entries: Seq<LogEntry>, converted: Seq<Log<T>>) -> bool {
    &&& converted.len() == entries.len()
    &&& forall|i: int|
        0 <= i < entries.len() ==> {
            &&& #[trigger] converted[i].0 == entries[i].term
            &&& call_ensures(T::from, (entries[i].command,), converted[i].1)
        }
}

/// Given a follower that receives an AppendEntries RPC, converts the
/// commands of the entries into its log's command type with `T::from` and
/// answers as `append_converted_entries` says. The caller stores the new
/// persistent state before it sends the response.
pub fn append_entries<T: RaftLogEntry>(node: &mut Raft<T>, request: AppendEntriesRequest) -> (response: AppendEntriesResponse)
    requires
        !append_overruns(
            old(node).persistent_data,
            request.term,
            request.prev_log_index,
            request.prev_log_term,
        ),
        old(node).persistent_data.log@.len() + request.entries@.len() <= usize::MAX,
    ensures
        response == append_response(
            old(node).persistent_data,
            request.term,
            request.prev_log_index,
            request.prev_log_term,
        ),
        append_rejected(old(node).persistent_data, request.term, request.prev_log_index) ==> {
            &&& final(node).persistent_data == old(node).persistent_data
            &&& final(node).volatile_data == old(node).volatile_data
        },
        append_conflicts(
            old(node).persistent_data,
            request.term,
            request.prev_log_index,
            request.prev_log_term,
        ) ==> {
            &&& final(node).persistent_data.log@ == log_after_conflict_check(
                old(node).persistent_data.log@,
                request.prev_log_index as int,
                request.prev_log_term,
            )
            &&& final(node).volatile_data == old(node).volatile_data
        },
        append_accepted(
            old(node).persistent_data,
            request.term,
            request.prev_log_index,
            request.prev_log_term,
        ) ==> exists|converted: Seq<Log<T>>|
            {
                &&& #[trigger] entries_converted(request.entries@, converted)
                &&& final(node).persistent_data.log@ == log_after_append(
                    old(node).persistent_data.log@,
                    request.prev_log_index,
                    converted,
                )
                &&& final(node).volatile_data.commit_index == commit_index_after_append(
                    old(node).persistent_data.log@,
                    old(node).volatile_data.commit_index,
                    request.prev_log_index,
                    converted,
                    request.leader_commit_index,
                )
                &&& final(node).volatile_data.last_applied == old(node).volatile_data.last_applied
            },
        final(node).persistent_data.current_term == old(node).persistent_data.current_term,
        final(node).persistent_data.voted_for == old(node).persistent_data.voted_for,
        final(node).volatile_data.commit_index >= old(node).volatile_data.commit_index,
        final(node).volatile_data.commit_index == old(node).volatile_data.commit_index
            || final(node).volatile_data.commit_index <= request.leader_commit_index,
        final(node).persistent_data.log@.len() > old(node).persistent_data.log@.len() ==> (
        final(node).volatile_data.commit_index == old(node).volatile_data.commit_index
            || final(node).volatile_data.commit_index < final(node).persistent_data.log@.len()),
        final(node).meta == old(node).meta,
        final(node).cluster == old(node).cluster,
        final(node).node_state == old(node).node_state,
{
    let AppendEntriesRequest {
        term,
        leader_id,
        prev_log_index,
        prev_log_term,
        entries,
        leader_commit_index,
    } = request;
    let ghost original = entries@;
    let mut entries = entries;
    let mut converted: Vec<Log<T>> = Vec::new();
    let mut i: usize = 0;
    while i < entries.len()
        invariant
            entries@.len() == original.len(),
            i <= entries@.len(),
            forall|j: int| i <= j < entries@.len() ==> #[trigger] entries@[j] == original[j],
            converted@.len() == i,
            forall|j: int|
                0 <= j < i ==> {
                    &&& #[trigger] converted@[j].0 == original[j].term
                    &&& call_ensures(T::from, (original[j].command,), converted@[j].1)
                },
        decreases entries@.len() - i,
    {
        let mut entry = LogEntry { term: 0, command: Vec::new() };
        entries.set_and_swap(i, &mut entry);
        let LogEntry { term: entry_term, command } = entry;
        let ghost before = converted@;
        let command: T = command.into();
        converted.push((entry_term, command));
        proof {
            assert forall|j: int| 0 <= j < i + 1 implies {
                &&& #[trigger] converted@[j].0 == original[j].term
                &&& call_ensures(T::from, (original[j].command,), converted@[j].1)
            } by {
                if j < i {
                    assert(converted@[j] == before[j]);
                    assert(before[j].0 == original[j].term);
                }
            }
        }
        i = i + 1;
    }
    let response = append_converted_entries(
        node,
        term,
        prev_log_index,
        prev_log_term,
        converted,
        leader_commit_index,
    );
    assert(entries_converted(original, converted@));
    response
}

/// Whether the terms of `log` never decrease from one entry to the next.
pub open spec fn log_terms_nondecreasing<T>(log: Seq<Log<T>>) -> bool {
    forall|i: int, j: int| 0 <= i <= j < log.len() ==> log[i].0 <= log[j].0
}

proof fn lemma_first_term_above_from_bounds<T>(log: Seq<Log<T>>, term: Int, from: int)
    requires
        0 <= from <= log.len(),
    ensures
        from <= first_term_above_from(log, term, from) <= log.len(),
    decreases log.len() - from,
{
    if from < log.len() && log[from].0 <= term {
        lemma_first_term_above_from_bounds(log, term, from + 1);
    }
}

proof fn lemma_first_term_above_from_past<T>(log: Seq<Log<T>>, term: Int, from: int, index: int)
    requires
        0 <= from <= index < log.len(),
        forall|j: int| from <= j <= index ==> log[j].0 <= term,
    ensures
        first_term_above_from(log, term, from) > index,
    decreases index - from,
{
    if from < index {
        lemma_first_term_above_from_past(log, term, from + 1, index);
    } else {
        lemma_first_term_above_from_bounds(log, term, from + 1);
    }
}

/// An accepted request keeps every entry of the follower's log and only
/// appends after it.
pub proof fn lemma_append_extends_log<T>(log: Seq<Log<T>>, prev_log_index: Int, entries: Seq<Log<T>>)
    ensures
        log_after_append(log, prev_log_index, entries).len() >= log.len(),
        log_after_append(log, prev_log_index, entries).take(log.len() as int) == log,
{
    let after = log_after_append(log, prev_log_index, entries);
    assert(after.take(log.len() as int) =~= log);
}

/// On a log whose terms never decrease, the conflict check (when the
/// follower does not panic on it) keeps every entry up to and including the
/// one at `prev_log_index`.
pub proof fn lemma_conflict_check_keeps_entries_through_prev<T>(
    log: Seq<Log<T>>,
    prev_log_index: Int,
    prev_log_term: Int,
)
    requires
        prev_log_index < log.len(),
        log_terms_nondecreasing(log),
        !conflict_check_overruns(log, prev_log_index as int, prev_log_term),
    ensures
        log_after_conflict_check(log, prev_log_index as int, prev_log_term).len() > prev_log_index,
        forall|i: int|
            0 <= i <= prev_log_index ==> #[trigger] log_after_conflict_check(
                log,
                prev_log_index as int,
                prev_log_term,
            )[i] == log[i],
{
    let p = prev_log_index as int;
    let checked = log_after_conflict_check(log, p, prev_log_term);
    if log[p].0 != prev_log_term {
        assert forall|j: int| 0 <= j <= p implies log[j].0 <= log[p].0 by {
        }
        lemma_first_term_above_from_past(log, log[p].0, 0, p);
        lemma_first_term_above_from_bounds(log, log[p].0, 0);
    }
    assert(checked.len() > p);
    assert forall|i: int| 0 <= i <= p implies checked[i] == log[i] by {
    }
}

/// An accepted request with no entries leaves the follower's log as it was.
pub proof fn lemma_empty_append_keeps_log<T>(log: Seq<Log<T>>, prev_log_index: Int)
    ensures
        log_after_append(log, prev_log_index, Seq::<Log<T>>::empty()) == log,
{
}

/// The follower's commit index never goes back when it accepts a request.
pub proof fn lemma_commit_index_monotonic<T>(
    log: Seq<Log<T>>,
    commit_index: Int,
    prev_log_index: Int,
    entries: Seq<Log<T>>,
    leader_commit_index: Int,
)
    ensures
        commit_index_after_append(log, commit_index, prev_log_index, entries, leader_commit_index)
            >= commit_index,
{
}

/// When the follower accepts a request that appends new entries, its commit
/// index becomes the smaller of the leader's commit index and the index of
/// its last entry when that is higher than before, and stays otherwise; when
/// nothing is appended, it becomes the leader's commit index when that is
/// higher. So it never rises above the leader's commit index.
pub proof fn lemma_commit_index_follows_leader<T>(
    log: Seq<Log<T>>,
    commit_index: Int,
    prev_log_index: Int,
    entries: Seq<Log<T>>,
    leader_commit_index: Int,
)
    ensures
        ({
            let c = commit_index_after_append(log, commit_index, prev_log_index, entries, leader_commit_index);
            let after = log_after_append(log, prev_log_index, entries);
            let last = after.len() - 1;
            let capped = if leader_commit_index < last { leader_commit_index as int } else { last };
            &&& after.len() > log.len() ==> c == (if leader_commit_index > commit_index && capped
                > commit_index {
                capped
            } else {
                commit_index as int
            })
            &&& after.len() == log.len() ==> c == (if leader_commit_index > commit_index {
                leader_commit_index
            } else {
                commit_index
            })
            &&& c == commit_index || c <= leader_commit_index
        }),
{
    lemma_first_new_entry_from_bounds(log, prev_log_index as int, entries, 0);
}

proof fn lemma_first_new_entry_from_bounds<T>(log: Seq<Log<T>>, prev_log_index: int, entries: Seq<Log<T>>, from: int)
    requires
        0 <= from,
    ensures
        from <= first_new_entry_from(log, prev_log_index, entries, from) || from > entries.len(),
        first_new_entry_from(log, prev_log_index, entries, from) <= entries.len(),
    decreases entries.len() - from,
{
    if from < entries.len() && prev_log_index + from < log.len() && log[prev_log_index + from].0
        == entries[from].0 {
        lemma_first_new_entry_from_bounds(log, prev_log_index, entries, from + 1);
    }
}

/// A follower answers with success exactly when it holds an entry at
/// `prev_log_index` whose term is `prev_log_term`, for a leader that is not
/// in an older term.
pub proof fn lemma_success_means_matching_entry<T>(
    state: PersistentState<T>,
    term: Int,
    prev_log_index: Int,
    prev_log_term: Int,
)
    ensures
        append_response(state, term, prev_log_index, prev_log_term).success <==> {
            &&& term >= state.current_term
            &&& prev_log_index < state.log@.len()
            &&& state.log@[prev_log_index as int].0 == prev_log_term
        },
{
}

} // verus!
