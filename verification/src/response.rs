//! What the caller is told: how a task as the platform reports it, or a
//! failure, becomes a response of the proving service.
use vstd::prelude::*;
use vstd::string::*;
use crate::datetime_utils::UtcInstant;
use crate::decode::instant_view;
use crate::proof_type::CircuitType;
use crate::proving_service::{
    seconds_view, GetVkResponse, GetVkResponseView, ProveRequest, ProveRequestView, ProveResponse,
    QueryTaskResponse, TaskReport,
};
use crate::task_state::{task_status_of, TaskStatus};
use crate::types::{
    CreateTaskInputView, SnarkifyCreateTaskInput, SnarkifyGetTaskResponse, TaskView,
};

verus! {

/// The seconds from start to finish where both are known, whatever their
/// order; nothing where one of them is not.
pub open spec fn compute_time(started: Option<int>, finished: Option<int>) -> Option<int> {
    match (started, finished) {
        (Some(s), Some(f)) => Some(f - s),
        _ => None,
    }
}

/// The time of creation as the caller is told it: `0` where it is not known.
pub open spec fn created_or_zero(created: Option<int>) -> int {
    match created {
        Some(c) => c,
        None => 0,
    }
}

/// The answer to a request for a verification key that the platform
/// delivered.
pub open spec fn vk_success(vk: Seq<char>) -> GetVkResponseView {
    GetVkResponseView { vk, error: None }
}

/// The answer to a request for a verification key that failed: an empty key
/// and the reason.
pub open spec fn vk_failure(reason: Seq<char>) -> GetVkResponseView {
    GetVkResponseView { vk: Seq::empty(), error: Some("Failed to get vk: "@ + reason) }
}

/// The answer to a proof request for which the platform created `task`. The
/// circuit, the hard fork and the input are those of the request; a task just
/// accepted has not finished, so no finish and no compute time are told, nor
/// a proof or an error.
pub open spec fn prove_success(request: ProveRequestView, task: TaskView) -> TaskReport {
    TaskReport {
        task_id: task.task_id,
        circuit_type: request.circuit_type,
        circuit_version: request.circuit_version,
        hard_fork_name: request.hard_fork_name,
        status: task.state.status(),
        created_at: created_or_zero(task.created),
        started_at: task.started,
        finished_at: None,
        compute_time_sec: None,
        input: Some(request.input),
        proof: None,
        vk: None,
        error: None,
    }
}

/// The answer to a proof request that failed: no task, the status `Failed`,
/// no times, the request's own fields, and the reason.
pub open spec fn prove_failure(request: ProveRequestView, reason: Seq<char>) -> TaskReport {
    TaskReport {
        task_id: Seq::empty(),
        circuit_type: request.circuit_type,
        circuit_version: request.circuit_version,
        hard_fork_name: request.hard_fork_name,
        status: TaskStatus::Failed,
        created_at: 0,
        started_at: None,
        finished_at: None,
        compute_time_sec: None,
        input: Some(request.input),
        proof: None,
        vk: None,
        error: Some("Failed to request proof: "@ + reason),
    }
}

/// The answer to a query for which the platform reported `task`, whose stored
/// input reads as `input`. Proof and error are the platform's, as they are.
pub open spec fn query_success(task: TaskView, input: CreateTaskInputView) -> TaskReport {
    TaskReport {
        task_id: task.task_id,
        circuit_type: input.circuit_type,
        circuit_version: input.circuit_version,
        hard_fork_name: input.hard_fork_name,
        status: task.state.status(),
        created_at: created_or_zero(task.created),
        started_at: task.started,
        finished_at: task.finished,
        compute_time_sec: compute_time(task.started, task.finished),
        input: Some(input.task_data),
        proof: task.proof,
        vk: None,
        error: task.error,
    }
}

/// The answer to a query that failed: the task's identifier as it was asked
/// for, nothing known of the task (`Undefined`, empty names, `Queued`, no
/// times, no input, no proof), and the reason.
pub open spec fn query_failure(task_id: Seq<char>, reason: Seq<char>) -> TaskReport {
    TaskReport {
        task_id,
        circuit_type: CircuitType::Undefined,
        circuit_version: Seq::empty(),
        hard_fork_name: Seq::empty(),
        status: TaskStatus::Queued,
        created_at: 0,
        started_at: None,
        finished_at: None,
        compute_time_sec: None,
        input: None,
        proof: None,
        vk: None,
        error: Some("Failed to query proof: "@ + reason),
    }
}

/// The seconds that a task took from start to finish, where both are known.
/// A finish before the start gives a negative time: the order is not checked.
pub fn compute_time_sec(started: Option<UtcInstant>, finished: Option<UtcInstant>) -> (r: Option<
    i64,
>)
    ensures
        seconds_view(r) == compute_time(instant_view(started), instant_view(finished)),
{
    match (started, finished) {
        (Some(s), Some(f)) => Some(f.seconds_since(&s)),
        _ => None,
    }
}

/// The timestamp of an instant that may be absent.
pub fn timestamp_of(instant: Option<UtcInstant>) -> (r: Option<i64>)
    ensures
        seconds_view(r) == instant_view(instant),
{
    match instant {
        Some(i) => Some(i.timestamp()),
        None => None,
    }
}

/// The time of creation as the caller is told it.
pub fn created_at_of(created: Option<UtcInstant>) -> (r: i64)
    ensures
        r == created_or_zero(instant_view(created)),
{
    match created {
        Some(c) => c.timestamp(),
        None => 0,
    }
}

impl GetVkResponse {
    /// The answer that delivers a verification key.
    pub fn success(vk: String) -> (r: GetVkResponse)
        ensures
            r@ == vk_success(vk@),
    {
        GetVkResponse { vk, error: None }
    }

    /// The answer that reports a failure.
    pub fn failure(reason: &str) -> (r: GetVkResponse)
        ensures
            r@ == vk_failure(reason@),
    {
        GetVkResponse {
            vk: String::new(),
            error: Some(String::from_str("Failed to get vk: ").concat(reason)),
        }
    }
}

impl ProveResponse {
    /// The answer to `request` for which the platform created `task`.
    pub fn success(request: &ProveRequest, task: &SnarkifyGetTaskResponse) -> (r: ProveResponse)
        ensures
            r@ == prove_success(request@, task@),
    {
        ProveResponse {
            task_id: task.task_id.clone(),
            circuit_type: request.circuit_type,
            circuit_version: request.circuit_version.clone(),
            hard_fork_name: request.hard_fork_name.clone(),
            status: task_status_of(task.state),
            created_at: created_at_of(task.created),
            started_at: timestamp_of(task.started),
            finished_at: None,
            compute_time_sec: None,
            input: Some(request.input.clone()),
            proof: None,
            vk: None,
            error: None,
        }
    }

    /// The answer to `request` that reports a failure.
    pub fn failure(request: &ProveRequest, reason: &str) -> (r: ProveResponse)
        ensures
            r@ == prove_failure(request@, reason@),
    {
        ProveResponse {
            task_id: String::new(),
            circuit_type: request.circuit_type,
            circuit_version: request.circuit_version.clone(),
            hard_fork_name: request.hard_fork_name.clone(),
            status: TaskStatus::Failed,
            created_at: 0,
            started_at: None,
            finished_at: None,
            compute_time_sec: None,
            input: Some(request.input.clone()),
            proof: None,
            vk: None,
            error: Some(String::from_str("Failed to request proof: ").concat(reason)),
        }
    }
}

impl QueryTaskResponse {
    /// The answer for a task that the platform reported, with its stored
    /// input already read.
    pub fn success(task: &SnarkifyGetTaskResponse, input: &SnarkifyCreateTaskInput) -> (r:
        QueryTaskResponse)
        ensures
            r@ == query_success(task@, input@),
    {
        QueryTaskResponse {
            task_id: task.task_id.clone(),
            circuit_type: input.circuit_type,
            circuit_version: input.circuit_version.clone(),
            hard_fork_name: input.hard_fork_name.clone(),
            status: task_status_of(task.state),
            created_at: created_at_of(task.created),
            started_at: timestamp_of(task.started),
            finished_at: timestamp_of(task.finished),
            compute_time_sec: compute_time_sec(task.started, task.finished),
            input: Some(input.task_data.clone()),
            proof: task.proof.clone(),
            vk: None,
            error: task.error.clone(),
        }
    }

    /// The answer that reports a failure to find out about the task
    /// `task_id`.
    pub fn failure(task_id: &str, reason: &str) -> (r: QueryTaskResponse)
        ensures
            r@ == query_failure(task_id@, reason@),
    {
        QueryTaskResponse {
            task_id: String::from_str(task_id),
            circuit_type: CircuitType::Undefined,
            circuit_version: String::new(),
            hard_fork_name: String::new(),
            status: TaskStatus::Queued,
            created_at: 0,
            started_at: None,
            finished_at: None,
            compute_time_sec: None,
            input: None,
            proof: None,
            vk: None,
            error: Some(String::from_str("Failed to query proof: ").concat(reason)),
        }
    }
}

/// With both a start and a finish the compute time is their difference, exact
/// to the second; without either there is none.
pub proof fn lemma_compute_time(started: Option<int>, finished: Option<int>)
    ensures
        started is Some && finished is Some ==> compute_time(started, finished) == Some(
            finished.unwrap() - started.unwrap(),
        ),
        started is None || finished is None ==> compute_time(started, finished) is None,
{
}

/// The answer to a query tells the compute time of the task it reports, and
/// tells one exactly where the task has both a start and a finish. The answer
/// to a proof request never tells one.
pub proof fn lemma_reported_compute_time(
    request: ProveRequestView,
    task: TaskView,
    input: CreateTaskInputView,
)
    ensures
        query_success(task, input).compute_time_sec == compute_time(task.started, task.finished),
        query_success(task, input).compute_time_sec is Some <==> task.started is Some
            && task.finished is Some,
        prove_success(request, task).compute_time_sec is None,
        prove_success(request, task).finished_at is None,
{
}

/// An answer that reports a task never has the status `Queued`; an answer
/// that reports a failed query always has.
pub proof fn lemma_queued_only_on_failure(
    request: ProveRequestView,
    task: TaskView,
    input: CreateTaskInputView,
    task_id: Seq<char>,
    reason: Seq<char>,
)
    ensures
        query_success(task, input).status != TaskStatus::Queued,
        prove_success(request, task).status != TaskStatus::Queued,
        prove_failure(request, reason).status == TaskStatus::Failed,
        query_failure(task_id, reason).status == TaskStatus::Queued,
{
}

} // verus!
