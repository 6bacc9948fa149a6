use snarkify_scroll_proving::http::{
    build_request, is_success_status, Header, HttpOutcome, HttpRequest, Method, RequestError,
    API_KEY_HEADER, CONTENT_TYPE_HEADER, CONTENT_TYPE_JSON,
};
use snarkify_scroll_proving::decode::DecodeError;
use snarkify_scroll_proving::proof_type::CircuitType;
use snarkify_scroll_proving::prover::{CloudProverConfig, SnarkifyProver, API_VERSION};
use snarkify_scroll_proving::proving_service::{
    GetVkRequest, GetVkResponse, ProveRequest, ProveResponse, QueryTaskRequest, QueryTaskResponse,
};
use snarkify_scroll_proving::retry::{RetryPolicy, Step};
use snarkify_scroll_proving::task_state::TaskStatus;

fn adapter() -> SnarkifyProver {
    SnarkifyProver::new(
        CloudProverConfig {
            base_url: String::from("https://api.example.test"),
            api_key: String::from("k-123"),
            retry_count: 2,
            retry_wait_time_sec: 10,
            connection_timeout_sec: 30,
        },
        String::from("svc-9"),
    )
}

fn prove_request_for(circuit_type: CircuitType) -> ProveRequest {
    ProveRequest {
        circuit_type,
        circuit_version: String::from("v0.13.1"),
        hard_fork_name: String::from("curie"),
        input: String::from("task \"data\""),
    }
}

fn response(status: u16, body: &str) -> HttpOutcome {
    HttpOutcome::Response { status, body: String::from(body) }
}

fn standard_headers() -> Vec<Header> {
    vec![
        Header { name: String::from("Content-Type"), value: String::from("application/json") },
        Header { name: String::from("X-Api-Key"), value: String::from("k-123") },
    ]
}

const STORED_INPUT: &str = "{\\\"circuit_type\\\":3,\\\"circuit_version\\\":\\\"v0.13.1\\\",\
\\\"hard_fork_name\\\":\\\"curie\\\",\\\"task_data\\\":\\\"the task\\\"}";

fn task_body(state: &str, started: &str, finished: &str, input: &str, rest: &str) -> String {
    format!(
        "{{\"task_id\":\"task-1\",\"created\":\"2024-01-15T10:30:00\",\"started\":{},\
\"finished\":{},\"state\":\"{}\",\"input\":\"{}\"{}}}",
        started, finished, state, input, rest
    )
}

/// Sends a request as the adapter's caller does: one attempt after another,
/// as the retry policy says. Returns the last outcome and the waits made.
fn drive(policy: &RetryPolicy, outcomes: &[HttpOutcome]) -> (HttpOutcome, Vec<u64>) {
    let mut waits = Vec::new();
    let mut retries_done: u32 = 0;
    loop {
        let outcome = outcomes[retries_done as usize].clone();
        match policy.after_attempt(retries_done, &outcome) {
            Step::Finish => return (outcome, waits),
            Step::Retry { wait_sec } => {
                waits.push(wait_sec);
                retries_done += 1;
            }
        }
    }
}

#[test]
fn success_statuses_are_200_to_202() {
    assert!(is_success_status(200));
    assert!(is_success_status(201));
    assert!(is_success_status(202));
    assert!(!is_success_status(199));
    assert!(!is_success_status(203));
    assert!(!is_success_status(204));
    assert!(!is_success_status(299));
    assert!(!is_success_status(0));
    assert!(!is_success_status(404));
    assert!(!is_success_status(503));
    assert!(!is_success_status(u16::MAX));
}

#[test]
fn outcome_body_of_each_kind() {
    assert_eq!(response(200, "b").body(), Ok("b"));
    assert_eq!(response(202, "").body(), Ok(""));
    assert_eq!(response(204, "b").body(), Err(RequestError::Status(204)));
    assert_eq!(response(500, "b").body(), Err(RequestError::Status(500)));
    assert_eq!(
        HttpOutcome::Transport(String::from("timed out")).body(),
        Err(RequestError::Transport(String::from("timed out")))
    );
}

#[test]
fn request_error_messages() {
    assert_eq!(RequestError::Status(503).message(), "status not ok: 503");
    assert_eq!(RequestError::Status(0).message(), "status not ok: 0");
    assert_eq!(
        RequestError::Transport(String::from("connection refused")).message(),
        "request failed: connection refused"
    );
    assert_eq!(
        RequestError::Payload(DecodeError::Field("state")).message(),
        "malformed payload: missing or invalid field state"
    );
}

#[test]
fn header_names() {
    assert_eq!(CONTENT_TYPE_HEADER, "Content-Type");
    assert_eq!(CONTENT_TYPE_JSON, "application/json");
    assert_eq!(API_KEY_HEADER, "X-Api-Key");
    assert_eq!(API_VERSION, "v1");
}

#[test]
fn request_is_built_from_its_parts() {
    let request =
        build_request(Method::Post, "http://h", "/p", "k-123", Some(String::from("{}")), 5);
    assert!(
        request
            == HttpRequest {
            method: Method::Post,
            url: String::from("http://h/p"),
            headers: standard_headers(),
            body: Some(String::from("{}")),
            timeout_sec: 5,
        }
    );
}

#[test]
fn adapter_is_remote() {
    assert!(!adapter().is_local());
}

#[test]
fn adapter_retry_policy_comes_from_the_configuration() {
    assert_eq!(
        adapter().retry_policy(),
        RetryPolicy { max_retries: 2, min_wait_sec: 5, max_wait_sec: 10 }
    );
}

#[test]
fn get_vk_request_names_version_and_type() {
    let request = adapter().get_vk_request(&GetVkRequest {
        circuit_type: CircuitType::Batch,
        circuit_version: String::from("v0.13.1"),
    });
    assert!(
        request
            == HttpRequest {
            method: Method::Get,
            url: String::from(
                "https://api.example.test/v1/scroll/sdk/vks/versions/v0.13.1/types/2"
            ),
            headers: standard_headers(),
            body: None,
            timeout_sec: 30,
        }
    );
}

#[test]
fn get_vk_response_delivers_the_key() {
    assert_eq!(
        SnarkifyProver::get_vk_response(&response(200, "{\"vk\":\"AAEC\"}")),
        GetVkResponse { vk: String::from("AAEC"), error: None }
    );
    assert_eq!(
        SnarkifyProver::get_vk_response(&response(201, "{\"vk\":\"AAEC\"}")).error,
        None
    );
}

#[test]
fn get_vk_response_tells_every_failure() {
    assert_eq!(
        SnarkifyProver::get_vk_response(&response(404, "{\"vk\":\"AAEC\"}")),
        GetVkResponse {
            vk: String::new(),
            error: Some(String::from("Failed to get vk: status not ok: 404")),
        }
    );
    assert_eq!(
        SnarkifyProver::get_vk_response(&HttpOutcome::Transport(String::from("dns"))),
        GetVkResponse {
            vk: String::new(),
            error: Some(String::from("Failed to get vk: request failed: dns")),
        }
    );
    assert_eq!(
        SnarkifyProver::get_vk_response(&response(200, "{\"key\":\"AAEC\"}")),
        GetVkResponse {
            vk: String::new(),
            error: Some(String::from(
                "Failed to get vk: malformed payload: missing or invalid field vk"
            )),
        }
    );
    let unreadable = SnarkifyProver::get_vk_response(&response(200, "<html>"));
    assert_eq!(unreadable.vk, "");
    assert!(unreadable.error.unwrap().starts_with("Failed to get vk: malformed payload: "));
}

#[test]
fn prove_request_posts_the_task_to_the_service() {
    let request = adapter().prove_request(&prove_request_for(CircuitType::Bundle)).unwrap();
    assert!(
        request
            == HttpRequest {
            method: Method::Post,
            url: String::from("https://api.example.test/v1/services/svc-9"),
            headers: standard_headers(),
            body: Some(String::from(
                "{\"input\":{\"circuit_type\":3,\"circuit_version\":\"v0.13.1\",\
\"hard_fork_name\":\"curie\",\"task_data\":\"task \\\"data\\\"\"},\"proof_type\":\"BUNDLE\"}"
            )),
            timeout_sec: 30,
        }
    );
}

#[test]
fn prove_response_for_an_accepted_task() {
    let request = prove_request_for(CircuitType::Chunk);
    let body = task_body("PENDING", "\"2024-01-15T10:30:02\"", "\"2024-01-15T10:31:00\"", "", "");
    assert_eq!(
        SnarkifyProver::prove_response(&request, &response(200, &body)),
        ProveResponse {
            task_id: String::from("task-1"),
            circuit_type: CircuitType::Chunk,
            circuit_version: String::from("v0.13.1"),
            hard_fork_name: String::from("curie"),
            status: TaskStatus::Proving,
            created_at: 1705314600,
            started_at: Some(1705314602),
            finished_at: None,
            compute_time_sec: None,
            input: Some(String::from("task \"data\"")),
            proof: None,
            vk: None,
            error: None,
        }
    );
}

#[test]
fn prove_response_without_times() {
    let request = prove_request_for(CircuitType::Batch);
    let body = "{\"task_id\":\"\",\"created\":null,\"started\":null,\"finished\":null,\
\"state\":\"FAILURE\",\"input\":\"x\",\"proof\":\"p\",\"error\":\"e\"}";
    let answer = SnarkifyProver::prove_response(&request, &response(202, body));
    assert_eq!(answer.task_id, "");
    assert_eq!(answer.status, TaskStatus::Failed);
    assert_eq!(answer.created_at, 0);
    assert_eq!(answer.started_at, None);
    assert_eq!(answer.finished_at, None);
    assert_eq!(answer.proof, None);
    assert_eq!(answer.error, None);
}

#[test]
fn prove_response_when_no_response_came() {
    let request = prove_request_for(CircuitType::Batch);
    let outcome = HttpOutcome::Transport(String::from("connection refused"));
    assert_eq!(
        SnarkifyProver::prove_response(&request, &outcome),
        ProveResponse {
            task_id: String::new(),
            circuit_type: CircuitType::Batch,
            circuit_version: String::from("v0.13.1"),
            hard_fork_name: String::from("curie"),
            status: TaskStatus::Failed,
            created_at: 0,
            started_at: None,
            finished_at: None,
            compute_time_sec: None,
            input: Some(String::from("task \"data\"")),
            proof: None,
            vk: None,
            error: Some(String::from(
                "Failed to request proof: request failed: connection refused"
            )),
        }
    );
}

#[test]
fn prove_response_for_a_bad_status_or_body() {
    let request = prove_request_for(CircuitType::Chunk);
    let refused = SnarkifyProver::prove_response(&request, &response(400, "{}"));
    assert_eq!(refused, ProveResponse::failure(&request, "status not ok: 400"));
    assert_eq!(
        refused.error,
        Some(String::from("Failed to request proof: status not ok: 400"))
    );
    let garbled = SnarkifyProver::prove_response(&request, &response(200, "{}"));
    assert_eq!(
        garbled,
        ProveResponse::failure(&request, "malformed payload: missing or invalid field task_id")
    );
}

#[test]
fn query_task_request_names_the_task() {
    let request =
        adapter().query_task_request(&QueryTaskRequest { task_id: String::from("task-1") });
    assert!(
        request
            == HttpRequest {
            method: Method::Get,
            url: String::from("https://api.example.test/v1/tasks/task-1"),
            headers: standard_headers(),
            body: None,
            timeout_sec: 30,
        }
    );
}

#[test]
fn query_task_response_for_a_finished_task() {
    let query = QueryTaskRequest { task_id: String::from("asked") };
    let body = task_body(
        "SUCCESS",
        "\"2024-01-15T10:31:00\"",
        "\"2024-01-15T10:33:05\"",
        STORED_INPUT,
        ",\"proof\":\"{\\\"proof\\\":\\\"AAEC\\\"}\",\"error\":null,\"proof_type\":\"BUNDLE\"",
    );
    assert_eq!(
        SnarkifyProver::query_task_response(&query, &response(200, &body)),
        QueryTaskResponse {
            task_id: String::from("task-1"),
            circuit_type: CircuitType::Bundle,
            circuit_version: String::from("v0.13.1"),
            hard_fork_name: String::from("curie"),
            status: TaskStatus::Success,
            created_at: 1705314600,
            started_at: Some(1705314660),
            finished_at: Some(1705314785),
            compute_time_sec: Some(125),
            input: Some(String::from("the task")),
            proof: Some(String::from("{\"proof\":\"AAEC\"}")),
            vk: None,
            error: None,
        }
    );
}

#[test]
fn query_task_response_for_a_running_task() {
    let query = QueryTaskRequest { task_id: String::from("task-1") };
    let body = task_body("PENDING", "\"2024-01-15T10:31:00\"", "null", STORED_INPUT, "");
    let answer = SnarkifyProver::query_task_response(&query, &response(200, &body));
    assert_eq!(answer.status, TaskStatus::Proving);
    assert_eq!(answer.started_at, Some(1705314660));
    assert_eq!(answer.finished_at, None);
    assert_eq!(answer.compute_time_sec, None);
    assert_eq!(answer.proof, None);
    assert_eq!(answer.error, None);
}

#[test]
fn query_task_response_passes_the_platform_error_on() {
    let query = QueryTaskRequest { task_id: String::from("task-1") };
    let body = task_body(
        "FAILURE",
        "\"2024-01-15T10:31:00\"",
        "\"2024-01-15T10:30:30\"",
        STORED_INPUT,
        ",\"error\":\"out of memory\"",
    );
    let answer = SnarkifyProver::query_task_response(&query, &response(200, &body));
    assert_eq!(answer.status, TaskStatus::Failed);
    assert_eq!(answer.compute_time_sec, Some(-30));
    assert_eq!(answer.error, Some(String::from("out of memory")));
    assert_eq!(answer.input, Some(String::from("the task")));
}

#[test]
fn query_task_response_when_the_stored_input_is_no_json() {
    let query = QueryTaskRequest { task_id: String::from("asked") };
    let body = task_body(
        "SUCCESS",
        "\"2024-01-15T10:31:00\"",
        "\"2024-01-15T10:33:05\"",
        "not json at all",
        ",\"proof\":\"p\"",
    );
    let answer = SnarkifyProver::query_task_response(&query, &response(200, &body));
    assert_eq!(answer.task_id, "asked");
    assert_eq!(answer.circuit_type, CircuitType::Undefined);
    assert_eq!(answer.circuit_version, "");
    assert_eq!(answer.hard_fork_name, "");
    assert_eq!(answer.status, TaskStatus::Queued);
    assert_eq!(answer.created_at, 0);
    assert_eq!(answer.started_at, None);
    assert_eq!(answer.finished_at, None);
    assert_eq!(answer.compute_time_sec, None);
    assert_eq!(answer.input, None);
    assert_eq!(answer.proof, None);
    assert_eq!(answer.vk, None);
    let error = answer.error.unwrap();
    assert!(!error.is_empty());
    assert!(error.starts_with("Failed to query proof: malformed payload: "));
}

#[test]
fn query_task_response_when_the_stored_input_lacks_a_field() {
    let query = QueryTaskRequest { task_id: String::from("asked") };
    let body = task_body("SUCCESS", "null", "null", "{\\\"circuit_type\\\":1}", "");
    assert_eq!(
        SnarkifyProver::query_task_response(&query, &response(200, &body)),
        QueryTaskResponse::failure(
            "asked",
            "malformed payload: missing or invalid field circuit_version"
        )
    );
}

#[test]
fn query_task_response_tells_every_failure() {
    let query = QueryTaskRequest { task_id: String::from("asked") };
    assert_eq!(
        SnarkifyProver::query_task_response(&query, &response(500, "oops")),
        QueryTaskResponse {
            task_id: String::from("asked"),
            circuit_type: CircuitType::Undefined,
            circuit_version: String::new(),
            hard_fork_name: String::new(),
            status: TaskStatus::Queued,
            created_at: 0,
            started_at: None,
            finished_at: None,
            compute_time_sec: None,
            input: None,
            proof: None,
            vk: None,
            error: Some(String::from("Failed to query proof: status not ok: 500")),
        }
    );
    assert_eq!(
        SnarkifyProver::query_task_response(&query, &HttpOutcome::Transport(String::from("t"))),
        QueryTaskResponse::failure("asked", "request failed: t")
    );
    assert_eq!(
        SnarkifyProver::query_task_response(&query, &response(200, "{\"task_id\":1}")),
        QueryTaskResponse::failure("asked", "malformed payload: missing or invalid field task_id")
    );
}

#[test]
fn two_failures_then_success_gives_a_successful_answer() {
    let policy = adapter().retry_policy();
    let outcomes = [
        response(503, "busy"),
        response(503, "busy"),
        response(200, "{\"vk\":\"AAEC\"}"),
    ];
    let (last, waits) = drive(&policy, &outcomes);
    assert_eq!(waits, vec![5, 10]);
    assert_eq!(
        SnarkifyProver::get_vk_response(&last),
        GetVkResponse { vk: String::from("AAEC"), error: None }
    );
}

#[test]
fn failures_up_to_the_budget_give_the_last_status() {
    let policy = adapter().retry_policy();
    let outcomes = [
        response(500, "a"),
        response(502, "b"),
        response(503, "c"),
        response(200, "{\"vk\":\"never reached\"}"),
    ];
    let (last, waits) = drive(&policy, &outcomes);
    assert_eq!(waits.len(), 2);
    assert_eq!(last, response(503, "c"));
    let answer = SnarkifyProver::get_vk_response(&last);
    assert_eq!(answer.vk, "");
    assert_eq!(answer.error, Some(String::from("Failed to get vk: status not ok: 503")));
    let query = QueryTaskRequest { task_id: String::from("asked") };
    let told = SnarkifyProver::query_task_response(&query, &last).error.unwrap();
    assert!(told.contains("503"));
}
