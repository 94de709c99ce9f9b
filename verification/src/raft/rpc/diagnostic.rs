//! Reports on the RPCs that a node handles, for a monitor.

use vstd::prelude::*;
use crate::clock;

pub use crate::raft::rpc::append_entries::{AppendEntriesRequestBody, LogEntryBody};

verus! {

#[verifier::external_type_specification]
#[verifier::external_body]
pub struct ExUuid(uuid::Uuid);

/// `uuid::Uuid::new_v4`: a random identifier; nothing is claimed of it.
#[verifier::external_body]
fn new_rpc_id() -> (id: uuid::Uuid) {
    uuid::Uuid::new_v4()
}

/// When, in the course of an RPC, a report is made.
#[derive(Debug, Clone, Copy, PartialEq, Eq)]
pub enum DiagnosticKind {
    SenderBeforeSending,
    ReceiverBeforeProcessing,
    ReceiverAfterProcessing,
    SenderAfterReceiving,
}

/// Whether a report carries a request or a response.
#[derive(Debug, Clone, Copy, PartialEq, Eq)]
pub enum DataKind {
    Request,
    Response,
}

/// Which RPC a report is about.
#[derive(Debug, Clone, Copy, PartialEq, Eq)]
pub enum RPCKind {
    AppendEntries,
    Heartbeat,
    RequestVote,
}

/// A report on an RPC: its identifier, kind and moment, the message, and the
/// state of the reporting node.
#[derive(Debug)]
pub struct RPCDiagnostic<T, D> {
    pub rpc_id: uuid::Uuid,
    pub rpc_kind: RPCKind,
    pub kind: DiagnosticKind,
    pub time_stamp: std::time::SystemTime,
    pub data: Option<D>,
    pub data_kind: DataKind,
    pub state: T,
}

impl<T, D> RPCDiagnostic<T, D> {
    /// A report with the given kinds, message and state, a fresh random
    /// identifier and the current time.
    pub fn new(
        diagnostic_kind: DiagnosticKind,
        data_kind: DataKind,
        rpc_kind: RPCKind,
        data: Option<D>,
        state: T,
    ) -> (report: RPCDiagnostic<T, D>)
        ensures
            report.kind == diagnostic_kind,
            report.data_kind == data_kind,
            report.rpc_kind == rpc_kind,
            report.data == data,
            report.state == state,
    {
        RPCDiagnostic {
            rpc_id: new_rpc_id(),
            kind: diagnostic_kind,
            state,
            data,
            data_kind,
            rpc_kind,
            time_stamp: clock::now(),
        }
    }

    /// The same report under the identifier `rpc_id`.
    pub fn with_id(self, rpc_id: uuid::Uuid) -> (report: RPCDiagnostic<T, D>)
        ensures
            report.rpc_id == rpc_id,
            report.rpc_kind == self.rpc_kind,
            report.kind == self.kind,
            report.time_stamp == self.time_stamp,
            report.data == self.data,
            report.data_kind == self.data_kind,
            report.state == self.state,
    {
        RPCDiagnostic { rpc_id, ..self }
    }
}

} // verus!
