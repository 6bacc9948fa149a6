//! The adapter: for each operation of the proving service, the request to send
//! to the platform and the response to give the caller for whatever came back.
//!
//! The adapter holds nothing but its configuration. One operation is one
//! request, which the caller sends, repeating attempts as the retry policy
//! says, and whose final outcome it hands back.
use vstd::prelude::*;
use vstd::string::*;
use crate::http::{
    accepted_body, authenticated_request, build_request, HttpOutcome, HttpOutcomeView,
    HttpRequest, Method, RequestError, RequestErrorView,
};
use crate::proving_service::{
    GetVkRequest, GetVkResponse, GetVkResponseView, ProveRequest, ProveRequestView,
    ProveResponse, QueryTaskRequest, QueryTaskResponse, TaskReport,
};
use crate::response::{
    prove_failure, prove_success, query_failure, query_success, vk_failure, vk_success,
};
use crate::retry::RetryPolicy;
use crate::text::{decimal, to_decimal};
use crate::types::{
    create_task_json, create_task_request_of, decode_input, decode_task, decode_vk,
    CreateTaskInputView, SnarkifyCreateTaskInput, SnarkifyCreateTaskRequest,
    SnarkifyGetTaskResponse, SnarkifyGetVkResponse, TaskView,
};

verus! {

/// The version of the platform's API, the first segment of every path.
pub const API_VERSION: &'static str = "v1";

/// How to reach a proving platform.
#[derive(Clone)]
pub struct CloudProverConfig {
    pub base_url: String,
    pub api_key: String,
    pub retry_count: u32,
    pub retry_wait_time_sec: u64,
    pub connection_timeout_sec: u64,
}

/// The adapter. Its configuration is set when it is made and never changes.
/// It has no `Debug`: the API key is not for printing.
#[derive(Clone)]
pub struct SnarkifyProver {
    base_url: String,
    api_key: String,
    service_id: String,
    send_timeout_sec: u64,
    retry_policy: RetryPolicy,
}

pub struct ProverView {
    pub base_url: Seq<char>,
    pub api_key: Seq<char>,
    pub service_id: Seq<char>,
    pub send_timeout_sec: u64,
    pub retry_policy: RetryPolicy,
}

impl View for SnarkifyProver {
    type V = ProverView;

    closed spec fn view(&self) -> ProverView {
        ProverView {
            base_url: self.base_url@,
            api_key: self.api_key@,
            service_id: self.service_id@,
            send_timeout_sec: self.send_timeout_sec,
            retry_policy: self.retry_policy,
        }
    }
}

/// The path under which the verification key of a circuit is found.
pub open spec fn vk_path(circuit_version: Seq<char>, circuit_type: crate::proof_type::CircuitType)
    -> Seq<char> {
    "/"@ + API_VERSION@ + "/scroll/sdk/vks/versions/"@ + circuit_version + "/types/"@ + decimal(
        circuit_type.code(),
    )
}

/// The path under which a service takes new tasks.
pub open spec fn service_path(service_id: Seq<char>) -> Seq<char> {
    "/"@ + API_VERSION@ + "/services/"@ + service_id
}

/// The path under which a task is found.
pub open spec fn task_path(task_id: Seq<char>) -> Seq<char> {
    "/"@ + API_VERSION@ + "/tasks/"@ + task_id
}

/// The verification key that an outcome delivers.
pub open spec fn fetched_vk(outcome: HttpOutcomeView) -> Result<Seq<char>, RequestErrorView> {
    match accepted_body(outcome) {
        Err(error) => Err(error),
        Ok(body) => match decode_vk(body) {
            Ok(vk) => Ok(vk),
            Err(error) => Err(RequestErrorView::Payload(error)),
        },
    }
}

/// The task that an outcome delivers.
pub open spec fn fetched_task(outcome: HttpOutcomeView) -> Result<TaskView, RequestErrorView> {
    match accepted_body(outcome) {
        Err(error) => Err(error),
        Ok(body) => match decode_task(body) {
            Ok(task) => Ok(task),
            Err(error) => Err(RequestErrorView::Payload(error)),
        },
    }
}

/// The task that an outcome delivers together with the reading of the input
/// stored in it. A stored input that cannot be read fails the whole.
pub open spec fn fetched_task_with_input(outcome: HttpOutcomeView) -> Result<
    (TaskView, CreateTaskInputView),
    RequestErrorView,
> {
    match fetched_task(outcome) {
        Err(error) => Err(error),
        Ok(task) => match decode_input(task.input) {
            Ok(input) => Ok((task, input)),
            Err(error) => Err(RequestErrorView::Payload(error)),
        },
    }
}

/// What the caller is told about a verification key for an outcome.
pub open spec fn vk_response_for(outcome: HttpOutcomeView) -> GetVkResponseView {
    match fetched_vk(outcome) {
        Ok(vk) => vk_success(vk),
        Err(error) => vk_failure(error.message()),
    }
}

/// What the caller is told about a proof request for an outcome.
pub open spec fn prove_response_for(request: ProveRequestView, outcome: HttpOutcomeView)
    -> TaskReport {
    match fetched_task(outcome) {
        Ok(task) => prove_success(request, task),
        Err(error) => prove_failure(request, error.message()),
    }
}

/// What the caller is told about a task for an outcome.
pub open spec fn query_response_for(task_id: Seq<char>, outcome: HttpOutcomeView) -> TaskReport {
    match fetched_task_with_input(outcome) {
        Ok((task, input)) => query_success(task, input),
        Err(error) => query_failure(task_id, error.message()),
    }
}

fn fetch_vk(outcome: &HttpOutcome) -> (r: Result<SnarkifyGetVkResponse, RequestError>)
    ensures
        match r {
            Ok(response) => fetched_vk(outcome@) == Ok::<Seq<char>, RequestErrorView>(
                response.vk@,
            ),
            Err(error) => fetched_vk(outcome@) == Err::<Seq<char>, RequestErrorView>(error@),
        },
{
    match outcome.body() {
        Err(error) => Err(error),
        Ok(body) => match SnarkifyGetVkResponse::decode(body) {
            Ok(response) => Ok(response),
            Err(error) => Err(RequestError::Payload(error)),
        },
    }
}

fn fetch_task(outcome: &HttpOutcome) -> (r: Result<SnarkifyGetTaskResponse, RequestError>)
    ensures
        match r {
            Ok(task) => fetched_task(outcome@) == Ok::<TaskView, RequestErrorView>(task@),
            Err(error) => fetched_task(outcome@) == Err::<TaskView, RequestErrorView>(error@),
        },
{
    match outcome.body() {
        Err(error) => Err(error),
        Ok(body) => match SnarkifyGetTaskResponse::decode(body) {
            Ok(task) => Ok(task),
            Err(error) => Err(RequestError::Payload(error)),
        },
    }
}

impl SnarkifyProver {
    /// Makes the adapter for a platform and a service on it. Waits between
    /// attempts grow from half the configured wait to the whole of it.
    pub fn new(cfg: CloudProverConfig, service_id: String) -> (r: SnarkifyProver)
        ensures
            r@ == (ProverView {
                base_url: cfg.base_url@,
                api_key: cfg.api_key@,
                service_id: service_id@,
                send_timeout_sec: cfg.connection_timeout_sec,
                retry_policy: RetryPolicy {
                    max_retries: cfg.retry_count,
                    min_wait_sec: cfg.retry_wait_time_sec / 2,
                    max_wait_sec: cfg.retry_wait_time_sec,
                },
            }),
    {
        SnarkifyProver {
            base_url: cfg.base_url,
            api_key: cfg.api_key,
            service_id,
            send_timeout_sec: cfg.connection_timeout_sec,
            retry_policy: RetryPolicy::new(cfg.retry_count, cfg.retry_wait_time_sec),
        }
    }

    /// Whether proofs are made on this machine. They are not: the platform
    /// makes them.
    pub fn is_local(&self) -> (r: bool)
        ensures
            !r,
    {
        false
    }

    /// The policy by which a failed attempt is tried again.
    pub fn retry_policy(&self) -> (r: RetryPolicy)
        ensures
            r == self@.retry_policy,
    {
        self.retry_policy
    }

    /// The request that fetches the verification key of a circuit.
    pub fn get_vk_request(&self, req: &GetVkRequest) -> (r: HttpRequest)
        ensures
            r@ == authenticated_request(
                Method::Get,
                self@.base_url,
                vk_path(req.circuit_version@, req.circuit_type),
                self@.api_key,
                None,
                self@.send_timeout_sec,
            ),
    {
        let mut path = String::from_str("/");
        path.append(API_VERSION);
        path.append("/scroll/sdk/vks/versions/");
        path.append(req.circuit_version.as_str());
        path.append("/types/");
        path.append(to_decimal(req.circuit_type.to_u8() as u64).as_str());
        build_request(
            Method::Get,
            self.base_url.as_str(),
            path.as_str(),
            self.api_key.as_str(),
            None,
            self.send_timeout_sec,
        )
    }

    /// The answer to a request for a verification key, for the outcome of the
    /// request. Every failure is told in the answer.
    pub fn get_vk_response(outcome: &HttpOutcome) -> (r: GetVkResponse)
        ensures
            r@ == vk_response_for(outcome@),
    {
        match fetch_vk(outcome) {
            Ok(response) => GetVkResponse::success(response.vk),
            Err(error) => GetVkResponse::failure(error.message().as_str()),
        }
    }

    /// The request that asks the platform for a proof, or, where its body
    /// cannot be written, the answer that tells the caller so. The circuit
    /// type must be one that can be proved.
    pub fn prove_request(&self, req: &ProveRequest) -> (r: Result<HttpRequest, ProveResponse>)
        requires
            req.circuit_type.is_defined(),
        ensures
            match create_task_json(create_task_request_of(req@).unwrap()) {
                Ok(body) => r is Ok && r->Ok_0@ == authenticated_request(
                    Method::Post,
                    self@.base_url,
                    service_path(self@.service_id),
                    self@.api_key,
                    Some(body),
                    self@.send_timeout_sec,
                ),
                Err(reason) => r is Err && r->Err_0@ == prove_failure(req@, reason),
            },
    {
        let task = SnarkifyCreateTaskRequest::from_prove_request(req);
        match task.to_json() {
            Err(reason) => Err(ProveResponse::failure(req, reason.as_str())),
            Ok(body) => {
                let mut path = String::from_str("/");
                path.append(API_VERSION);
                path.append("/services/");
                path.append(self.service_id.as_str());
                Ok(
                    build_request(
                        Method::Post,
                        self.base_url.as_str(),
                        path.as_str(),
                        self.api_key.as_str(),
                        Some(body),
                        self.send_timeout_sec,
                    ),
                )
            },
        }
    }

    /// The answer to a proof request, for the outcome of the request to the
    /// platform. Every failure is told in the answer.
    pub fn prove_response(req: &ProveRequest, outcome: &HttpOutcome) -> (r: ProveResponse)
        ensures
            r@ == prove_response_for(req@, outcome@),
    {
        match fetch_task(outcome) {
            Ok(task) => ProveResponse::success(req, &task),
            Err(error) => ProveResponse::failure(req, error.message().as_str()),
        }
    }

    /// The request that asks the platform about a task.
    pub fn query_task_request(&self, req: &QueryTaskRequest) -> (r: HttpRequest)
        ensures
            r@ == authenticated_request(
                Method::Get,
                self@.base_url,
                task_path(req.task_id@),
                self@.api_key,
                None,
                self@.send_timeout_sec,
            ),
    {
        let mut path = String::from_str("/");
        path.append(API_VERSION);
        path.append("/tasks/");
        path.append(req.task_id.as_str());
        build_request(
            Method::Get,
            self.base_url.as_str(),
            path.as_str(),
            self.api_key.as_str(),
            None,
            self.send_timeout_sec,
        )
    }

    /// The answer to a query, for the outcome of the request to the platform.
    /// The input stored with the task is read a second time, as JSON of its
    /// own; where that fails the whole query has failed. Every failure is
    /// told in the answer.
    pub fn query_task_response(req: &QueryTaskRequest, outcome: &HttpOutcome) -> (r:
        QueryTaskResponse)
        ensures
            r@ == query_response_for(req.task_id@, outcome@),
    {
        match fetch_task(outcome) {
            Err(error) => QueryTaskResponse::failure(
                req.task_id.as_str(),
                error.message().as_str(),
            ),
            Ok(task) => match SnarkifyCreateTaskInput::decode(task.input.as_str()) {
                Ok(input) => QueryTaskResponse::success(&task, &input),
                Err(error) => QueryTaskResponse::failure(
                    req.task_id.as_str(),
                    RequestError::Payload(error).message().as_str(),
                ),
            },
        }
    }
}

/// A proof request that fails, for whatever reason, is answered with an empty
/// task identifier, the status `Failed`, the creation time `0`, no other
/// times, and the request's own circuit type, circuit version, hard fork and
/// input; the error is there and is not empty. In particular this is the
/// answer where no response came at all.
pub proof fn lemma_failed_proof_request(request: ProveRequestView, outcome: HttpOutcomeView)
    requires
        fetched_task(outcome) is Err,
    ensures
        outcome is Transport ==> fetched_task(outcome) is Err,
        ({
            let r = prove_response_for(request, outcome);
            &&& r.task_id.len() == 0
            &&& r.status == crate::task_state::TaskStatus::Failed
            &&& r.created_at == 0
            &&& r.started_at is None
            &&& r.finished_at is None
            &&& r.compute_time_sec is None
            &&& r.circuit_type == request.circuit_type
            &&& r.circuit_version == request.circuit_version
            &&& r.hard_fork_name == request.hard_fork_name
            &&& r.input == Some(request.input)
            &&& r.proof is None
            &&& r.vk is None
            &&& r.error is Some
            &&& r.error.unwrap().len() > 0
        }),
{
    reveal_strlit("Failed to request proof: ");
}

/// An outcome without a response always fails a proof request.
pub proof fn lemma_no_response_fails(outcome: HttpOutcomeView)
    requires
        outcome is Transport,
    ensures
        fetched_vk(outcome) is Err,
        fetched_task(outcome) is Err,
        fetched_task_with_input(outcome) is Err,
{
}

/// A query that fails, for whatever reason, is answered as a whole failure:
/// the status `Queued`, the circuit type `Undefined`, empty circuit version
/// and hard fork, no times, no input, no proof, and an error that is not
/// empty; the task identifier is the one asked for. In particular this is the
/// answer where the platform reports a task whose stored input cannot be
/// read: nothing of that task is told.
pub proof fn lemma_failed_query(task_id: Seq<char>, outcome: HttpOutcomeView)
    requires
        fetched_task_with_input(outcome) is Err,
    ensures
        ({
            let r = query_response_for(task_id, outcome);
            &&& r.task_id == task_id
            &&& r.status == crate::task_state::TaskStatus::Queued
            &&& r.circuit_type == crate::proof_type::CircuitType::Undefined
            &&& r.circuit_version.len() == 0
            &&& r.hard_fork_name.len() == 0
            &&& r.created_at == 0
            &&& r.started_at is None
            &&& r.finished_at is None
            &&& r.compute_time_sec is None
            &&& r.input is None
            &&& r.proof is None
            &&& r.vk is None
            &&& r.error is Some
            &&& r.error.unwrap().len() > 0
        }),
{
    reveal_strlit("Failed to query proof: ");
}

/// A task whose stored input cannot be read fails the query, whatever else
/// the platform reported of it.
pub proof fn lemma_unreadable_input_fails_query(outcome: HttpOutcomeView)
    requires
        fetched_task(outcome) is Ok,
        decode_input(fetched_task(outcome)->Ok_0.input) is Err,
    ensures
        fetched_task_with_input(outcome) is Err,
{
}

/// A response with a status outside 200 to 202 fails every operation, and the
/// error that the caller is told ends in that status, written in decimal.
pub proof fn lemma_status_failure_names_status(
    request: ProveRequestView,
    task_id: Seq<char>,
    status: u16,
    body: Seq<char>,
)
    requires
        !(200 <= status <= 202),
    ensures
        ({
            let outcome = HttpOutcomeView::Response { status, body };
            let told = "status not ok: "@ + decimal(status as nat);
            &&& vk_response_for(outcome) == vk_failure(told)
            &&& prove_response_for(request, outcome) == prove_failure(request, told)
            &&& query_response_for(task_id, outcome) == query_failure(task_id, told)
        }),
{
}

/// The answer about a verification key has an error exactly where no key was
/// delivered, and then the key is empty.
pub proof fn lemma_vk_error_tells_failure(outcome: HttpOutcomeView)
    ensures
        vk_response_for(outcome).error is None <==> fetched_vk(outcome) is Ok,
        fetched_vk(outcome) is Ok ==> vk_response_for(outcome).vk == fetched_vk(outcome)->Ok_0,
        fetched_vk(outcome) is Err ==> vk_response_for(outcome).vk.len() == 0,
{
}

} // verus!
