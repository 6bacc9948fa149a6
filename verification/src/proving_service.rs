//! The requests that the orchestration framework makes of a proving service and
//! the responses it expects back.
//!
//! Times are whole seconds: a point in time is counted from the Unix epoch.
use vstd::prelude::*;
use crate::proof_type::CircuitType;
use crate::task_state::TaskStatus;

verus! {

/// Asks for the verification key of a circuit.
#[derive(Clone, Debug, PartialEq, Eq)]
pub struct GetVkRequest {
    pub circuit_type: CircuitType,
    pub circuit_version: String,
}

/// The verification key, base64-encoded, or an empty key and the reason why it
/// could not be had.
#[derive(Clone, Debug, PartialEq, Eq)]
pub struct GetVkResponse {
    pub vk: String,
    pub error: Option<String>,
}

pub struct GetVkResponseView {
    pub vk: Seq<char>,
    pub error: Option<Seq<char>>,
}

impl View for GetVkResponse {
    type V = GetVkResponseView;

    open spec fn view(&self) -> GetVkResponseView {
        GetVkResponseView { vk: self.vk@, error: text_view(self.error) }
    }
}

/// Asks for a proof.
#[derive(Clone, Debug, PartialEq, Eq)]
pub struct ProveRequest {
    pub circuit_type: CircuitType,
    pub circuit_version: String,
    pub hard_fork_name: String,
    /// The task to prove, in a text that only the prover reads.
    pub input: String,
}

pub struct ProveRequestView {
    pub circuit_type: CircuitType,
    pub circuit_version: Seq<char>,
    pub hard_fork_name: Seq<char>,
    pub input: Seq<char>,
}

impl View for ProveRequest {
    type V = ProveRequestView;

    open spec fn view(&self) -> ProveRequestView {
        ProveRequestView {
            circuit_type: self.circuit_type,
            circuit_version: self.circuit_version@,
            hard_fork_name: self.hard_fork_name@,
            input: self.input@,
        }
    }
}

/// Asks how a task is doing.
#[derive(Clone, Debug, PartialEq, Eq)]
pub struct QueryTaskRequest {
    pub task_id: String,
}

/// What the caller is told about a task: the answer to a proof request and to
/// a query alike.
pub struct TaskReport {
    pub task_id: Seq<char>,
    pub circuit_type: CircuitType,
    pub circuit_version: Seq<char>,
    pub hard_fork_name: Seq<char>,
    pub status: TaskStatus,
    /// When the task was created; `0` where that is not known.
    pub created_at: int,
    pub started_at: Option<int>,
    pub finished_at: Option<int>,
    /// The seconds from start to finish, where both are known.
    pub compute_time_sec: Option<int>,
    pub input: Option<Seq<char>>,
    pub proof: Option<Seq<char>>,
    pub vk: Option<Seq<char>>,
    /// Present exactly where the operation failed.
    pub error: Option<Seq<char>>,
}

/// The answer to a proof request.
#[derive(Clone, Debug, PartialEq, Eq)]
pub struct ProveResponse {
    pub task_id: String,
    pub circuit_type: CircuitType,
    pub circuit_version: String,
    pub hard_fork_name: String,
    pub status: TaskStatus,
    pub created_at: i64,
    pub started_at: Option<i64>,
    pub finished_at: Option<i64>,
    pub compute_time_sec: Option<i64>,
    pub input: Option<String>,
    pub proof: Option<String>,
    pub vk: Option<String>,
    pub error: Option<String>,
}

impl View for ProveResponse {
    type V = TaskReport;

    open spec fn view(&self) -> TaskReport {
        TaskReport {
            task_id: self.task_id@,
            circuit_type: self.circuit_type,
            circuit_version: self.circuit_version@,
            hard_fork_name: self.hard_fork_name@,
            status: self.status,
            created_at: self.created_at as int,
            started_at: seconds_view(self.started_at),
            finished_at: seconds_view(self.finished_at),
            compute_time_sec: seconds_view(self.compute_time_sec),
            input: text_view(self.input),
            proof: text_view(self.proof),
            vk: text_view(self.vk),
            error: text_view(self.error),
        }
    }
}

/// The answer to a query.
#[derive(Clone, Debug, PartialEq, Eq)]
pub struct QueryTaskResponse {
    pub task_id: String,
    pub circuit_type: CircuitType,
    pub circuit_version: String,
    pub hard_fork_name: String,
    pub status: TaskStatus,
    pub created_at: i64,
    pub started_at: Option<i64>,
    pub finished_at: Option<i64>,
    pub compute_time_sec: Option<i64>,
    pub input: Option<String>,
    pub proof: Option<String>,
    pub vk: Option<String>,
    pub error: Option<String>,
}

impl View for QueryTaskResponse {
    type V = TaskReport;

    open spec fn view(&self) -> TaskReport {
        TaskReport {
            task_id: self.task_id@,
            circuit_type: self.circuit_type,
            circuit_version: self.circuit_version@,
            hard_fork_name: self.hard_fork_name@,
            status: self.status,
            created_at: self.created_at as int,
            started_at: seconds_view(self.started_at),
            finished_at: seconds_view(self.finished_at),
            compute_time_sec: seconds_view(self.compute_time_sec),
            input: text_view(self.input),
            proof: text_view(self.proof),
            vk: text_view(self.vk),
            error: text_view(self.error),
        }
    }
}

/// The characters of an optional string.
pub open spec fn text_view(text: Option<String>) -> Option<Seq<char>> {
    match text {
        Some(t) => Some(t@),
        None => None,
    }
}

/// An optional count of seconds, as a mathematical integer.
pub open spec fn seconds_view(secs: Option<i64>) -> Option<int> {
    match secs {
        Some(s) => Some(s as int),
        None => None,
    }
}

} // verus!
