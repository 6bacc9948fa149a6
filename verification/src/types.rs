//! The payloads exchanged with the proving platform, and how they are read from
//! and written as JSON.
use vstd::prelude::*;
use vstd::string::*;
use crate::datetime_utils::UtcInstant;
use crate::decode::{
    circuit_type_field, datetime_field, instant_view, optional_text_field, proof_type_field,
    read_circuit_type, read_datetime, read_optional_text, read_proof_type, read_state, read_text,
    state_field, text_field, DecodeError, DecodeErrorView,
};
use crate::json::{json_model, json_parse, json_quote, Json};
use crate::proof_type::{CircuitType, SnarkifyProofType};
use crate::proving_service::{text_view, ProveRequest, ProveRequestView};
use crate::task_state::SnarkifyTaskState;
use crate::text::{decimal, to_decimal};

verus! {

/// The platform's answer to a request for a verification key.
#[derive(Clone, Debug, PartialEq, Eq)]
pub struct SnarkifyGetVkResponse {
    /// The verification key, base64-encoded.
    pub vk: String,
}

/// The verification key that a document holds under `vk`, if it holds one.
pub open spec fn vk_of(doc: Json) -> Result<Seq<char>, DecodeErrorView> {
    match text_field(doc, "vk"@) {
        Some(vk) => Ok(vk),
        None => Err(DecodeErrorView::Field("vk"@)),
    }
}

/// What a text holds when read as the answer to a request for a verification
/// key.
pub open spec fn decode_vk(text: Seq<char>) -> Result<Seq<char>, DecodeErrorView> {
    match json_parse(text) {
        Ok(doc) => vk_of(doc),
        Err(message) => Err(DecodeErrorView::Syntax(message)),
    }
}

impl SnarkifyGetVkResponse {
    /// Reads the answer from a JSON value: an object whose field `vk` is a
    /// string.
    pub fn from_value(doc: &serde_json::Value) -> (r: Result<SnarkifyGetVkResponse, DecodeError>)
        ensures
            match r {
                Ok(response) => vk_of(json_model(*doc)) == Ok::<Seq<char>, DecodeErrorView>(
                    response.vk@,
                ),
                Err(error) => vk_of(json_model(*doc)) == Err::<Seq<char>, DecodeErrorView>(error@),
            },
    {
        match read_text(doc, "vk") {
            Some(vk) => Ok(SnarkifyGetVkResponse { vk: String::from_str(vk) }),
            None => Err(DecodeError::Field("vk")),
        }
    }

    /// Reads the answer from the text of a response body.
    pub fn decode(text: &str) -> (r: Result<SnarkifyGetVkResponse, DecodeError>)
        ensures
            match r {
                Ok(response) => decode_vk(text@) == Ok::<Seq<char>, DecodeErrorView>(response.vk@),
                Err(error) => decode_vk(text@) == Err::<Seq<char>, DecodeErrorView>(error@),
            },
    {
        match crate::json::parse(text) {
            Ok(doc) => SnarkifyGetVkResponse::from_value(&doc),
            Err(message) => Err(DecodeError::Syntax(message)),
        }
    }
}

/// The fields of a proof request as the platform stores them with a task.
#[derive(Clone, Debug, PartialEq, Eq)]
pub struct SnarkifyCreateTaskInput {
    pub circuit_type: CircuitType,
    pub circuit_version: String,
    pub hard_fork_name: String,
    pub task_data: String,
}

pub struct CreateTaskInputView {
    pub circuit_type: CircuitType,
    pub circuit_version: Seq<char>,
    pub hard_fork_name: Seq<char>,
    pub task_data: Seq<char>,
}

impl View for SnarkifyCreateTaskInput {
    type V = CreateTaskInputView;

    open spec fn view(&self) -> CreateTaskInputView {
        CreateTaskInputView {
            circuit_type: self.circuit_type,
            circuit_version: self.circuit_version@,
            hard_fork_name: self.hard_fork_name@,
            task_data: self.task_data@,
        }
    }
}

/// The task input that a document holds. The first field that is missing or of
/// the wrong kind, in the order `circuit_type`, `circuit_version`,
/// `hard_fork_name`, `task_data`, is the one reported.
pub open spec fn input_of(doc: Json) -> Result<CreateTaskInputView, DecodeErrorView> {
    if circuit_type_field(doc) is None {
        Err(DecodeErrorView::Field("circuit_type"@))
    } else if text_field(doc, "circuit_version"@) is None {
        Err(DecodeErrorView::Field("circuit_version"@))
    } else if text_field(doc, "hard_fork_name"@) is None {
        Err(DecodeErrorView::Field("hard_fork_name"@))
    } else if text_field(doc, "task_data"@) is None {
        Err(DecodeErrorView::Field("task_data"@))
    } else {
        Ok(
            CreateTaskInputView {
                circuit_type: circuit_type_field(doc).unwrap(),
                circuit_version: text_field(doc, "circuit_version"@).unwrap(),
                hard_fork_name: text_field(doc, "hard_fork_name"@).unwrap(),
                task_data: text_field(doc, "task_data"@).unwrap(),
            },
        )
    }
}

/// What a text holds when read as a task input.
pub open spec fn decode_input(text: Seq<char>) -> Result<CreateTaskInputView, DecodeErrorView> {
    match json_parse(text) {
        Ok(doc) => input_of(doc),
        Err(message) => Err(DecodeErrorView::Syntax(message)),
    }
}

/// The JSON text of a task input: an object with the four fields in the order
/// `circuit_type`, `circuit_version`, `hard_fork_name`, `task_data`, without
/// white space. The circuit type is written as its code. Fails with the
/// writer's message where one of the strings cannot be written.
pub open spec fn input_json(input: CreateTaskInputView) -> Result<Seq<char>, Seq<char>> {
    match json_quote(input.circuit_version) {
        Err(message) => Err(message),
        Ok(version) => match json_quote(input.hard_fork_name) {
            Err(message) => Err(message),
            Ok(fork) => match json_quote(input.task_data) {
                Err(message) => Err(message),
                Ok(data) => Ok(
                    "{\"circuit_type\":"@ + decimal(input.circuit_type.code())
                        + ",\"circuit_version\":"@ + version + ",\"hard_fork_name\":"@ + fork
                        + ",\"task_data\":"@ + data + "}"@,
                ),
            },
        },
    }
}

impl SnarkifyCreateTaskInput {
    /// Reads a task input from a JSON value: an object with a number under
    /// `circuit_type` and strings under `circuit_version`, `hard_fork_name`
    /// and `task_data`.
    pub fn from_value(doc: &serde_json::Value) -> (r: Result<SnarkifyCreateTaskInput, DecodeError>)
        ensures
            match r {
                Ok(input) => input_of(json_model(*doc)) == Ok::<
                    CreateTaskInputView,
                    DecodeErrorView,
                >(input@),
                Err(error) => input_of(json_model(*doc)) == Err::<
                    CreateTaskInputView,
                    DecodeErrorView,
                >(error@),
            },
    {
        let circuit_type = match read_circuit_type(doc) {
            Some(circuit_type) => circuit_type,
            None => { return Err(DecodeError::Field("circuit_type")); },
        };
        let circuit_version = match read_text(doc, "circuit_version") {
            Some(text) => String::from_str(text),
            None => { return Err(DecodeError::Field("circuit_version")); },
        };
        let hard_fork_name = match read_text(doc, "hard_fork_name") {
            Some(text) => String::from_str(text),
            None => { return Err(DecodeError::Field("hard_fork_name")); },
        };
        let task_data = match read_text(doc, "task_data") {
            Some(text) => String::from_str(text),
            None => { return Err(DecodeError::Field("task_data")); },
        };
        Ok(SnarkifyCreateTaskInput { circuit_type, circuit_version, hard_fork_name, task_data })
    }

    /// Reads a task input from JSON text, such as the platform hands back in
    /// the `input` field of a task.
    pub fn decode(text: &str) -> (r: Result<SnarkifyCreateTaskInput, DecodeError>)
        ensures
            match r {
                Ok(input) => decode_input(text@) == Ok::<CreateTaskInputView, DecodeErrorView>(
                    input@,
                ),
                Err(error) => decode_input(text@) == Err::<CreateTaskInputView, DecodeErrorView>(
                    error@,
                ),
            },
    {
        match crate::json::parse(text) {
            Ok(doc) => SnarkifyCreateTaskInput::from_value(&doc),
            Err(message) => Err(DecodeError::Syntax(message)),
        }
    }

    /// Writes the task input as JSON text.
    pub fn to_json(&self) -> (r: Result<String, String>)
        ensures
            match r {
                Ok(text) => input_json(self@) == Ok::<Seq<char>, Seq<char>>(text@),
                Err(message) => input_json(self@) == Err::<Seq<char>, Seq<char>>(message@),
            },
    {
        let version = match crate::json::quote(self.circuit_version.as_str()) {
            Ok(literal) => literal,
            Err(message) => { return Err(message); },
        };
        let fork = match crate::json::quote(self.hard_fork_name.as_str()) {
            Ok(literal) => literal,
            Err(message) => { return Err(message); },
        };
        let data = match crate::json::quote(self.task_data.as_str()) {
            Ok(literal) => literal,
            Err(message) => { return Err(message); },
        };
        let code = to_decimal(self.circuit_type.to_u8() as u64);
        let mut text = String::from_str("{\"circuit_type\":");
        text.append(code.as_str());
        text.append(",\"circuit_version\":");
        text.append(version.as_str());
        text.append(",\"hard_fork_name\":");
        text.append(fork.as_str());
        text.append(",\"task_data\":");
        text.append(data.as_str());
        text.append("}");
        Ok(text)
    }
}

/// The body of a request that creates a task.
#[derive(Clone, Debug, PartialEq, Eq)]
pub struct SnarkifyCreateTaskRequest {
    pub input: SnarkifyCreateTaskInput,
    pub proof_type: SnarkifyProofType,
}

pub struct CreateTaskRequestView {
    pub input: CreateTaskInputView,
    pub proof_type: SnarkifyProofType,
}

impl View for SnarkifyCreateTaskRequest {
    type V = CreateTaskRequestView;

    open spec fn view(&self) -> CreateTaskRequestView {
        CreateTaskRequestView { input: self.input@, proof_type: self.proof_type }
    }
}

impl CreateTaskRequestView {
    /// Whether the proof type is the one that belongs to the input's circuit
    /// type. The circuit type is then one that can be proved.
    pub open spec fn is_consistent(self) -> bool {
        SnarkifyProofType::of_circuit(self.input.circuit_type) == Some(self.proof_type)
    }
}

/// The task that a proof request asks the platform to create. A request for
/// the circuit type `Undefined` asks for none.
pub open spec fn create_task_request_of(request: ProveRequestView) -> Option<
    CreateTaskRequestView,
> {
    match SnarkifyProofType::of_circuit(request.circuit_type) {
        Some(proof_type) => Some(
            CreateTaskRequestView {
                input: CreateTaskInputView {
                    circuit_type: request.circuit_type,
                    circuit_version: request.circuit_version,
                    hard_fork_name: request.hard_fork_name,
                    task_data: request.input,
                },
                proof_type,
            },
        ),
        None => None,
    }
}

/// The JSON text of a request that creates a task: the task input under
/// `input`, then the proof type's name under `proof_type`.
pub open spec fn create_task_json(request: CreateTaskRequestView) -> Result<Seq<char>, Seq<char>> {
    match input_json(request.input) {
        Err(message) => Err(message),
        Ok(input) => Ok(
            "{\"input\":"@ + input + ",\"proof_type\":\""@ + request.proof_type.spec_wire_name()
                + "\"}"@,
        ),
    }
}

impl SnarkifyCreateTaskRequest {
    /// Builds the body that asks the platform for the proof that `request`
    /// asks for. The circuit type must be one that can be proved.
    pub fn from_prove_request(request: &ProveRequest) -> (r: SnarkifyCreateTaskRequest)
        requires
            request.circuit_type.is_defined(),
        ensures
            create_task_request_of(request@) == Some(r@),
            r@.is_consistent(),
    {
        SnarkifyCreateTaskRequest {
            input: SnarkifyCreateTaskInput {
                circuit_type: request.circuit_type,
                circuit_version: request.circuit_version.clone(),
                hard_fork_name: request.hard_fork_name.clone(),
                task_data: request.input.clone(),
            },
            proof_type: SnarkifyProofType::from_circuit_type(request.circuit_type),
        }
    }

    /// Writes the body as JSON text.
    pub fn to_json(&self) -> (r: Result<String, String>)
        ensures
            match r {
                Ok(text) => create_task_json(self@) == Ok::<Seq<char>, Seq<char>>(text@),
                Err(message) => create_task_json(self@) == Err::<Seq<char>, Seq<char>>(message@),
            },
    {
        match self.input.to_json() {
            Err(message) => Err(message),
            Ok(input) => {
                let mut text = String::from_str("{\"input\":");
                text.append(input.as_str());
                text.append(",\"proof_type\":\"");
                text.append(self.proof_type.wire_name());
                text.append("\"}");
                Ok(text)
            },
        }
    }
}

/// A task as the platform reports it.
#[derive(Clone, Debug, PartialEq, Eq)]
pub struct SnarkifyGetTaskResponse {
    /// The platform's identifier of the task; empty where it has none yet.
    pub task_id: String,
    pub created: Option<UtcInstant>,
    pub started: Option<UtcInstant>,
    pub finished: Option<UtcInstant>,
    pub state: SnarkifyTaskState,
    /// The task input as the platform stored it: JSON text in a string.
    pub input: String,
    /// JSON text that holds the proof, base64-encoded, and what belongs to it.
    pub proof: Option<String>,
    pub error: Option<String>,
    pub proof_type: Option<SnarkifyProofType>,
}

pub struct TaskView {
    pub task_id: Seq<char>,
    pub created: Option<int>,
    pub started: Option<int>,
    pub finished: Option<int>,
    pub state: SnarkifyTaskState,
    pub input: Seq<char>,
    pub proof: Option<Seq<char>>,
    pub error: Option<Seq<char>>,
    pub proof_type: Option<SnarkifyProofType>,
}

impl View for SnarkifyGetTaskResponse {
    type V = TaskView;

    open spec fn view(&self) -> TaskView {
        TaskView {
            task_id: self.task_id@,
            created: instant_view(self.created),
            started: instant_view(self.started),
            finished: instant_view(self.finished),
            state: self.state,
            input: self.input@,
            proof: text_view(self.proof),
            error: text_view(self.error),
            proof_type: self.proof_type,
        }
    }
}

/// The task that a document holds. The fields `task_id`, `state` and `input`
/// must be there; so must `created`, `started` and `finished`, each `null` or
/// a timestamp; `proof`, `error` and `proof_type` may be left out. The first
/// field that does not fit, in the order in which a task lists them, is the
/// one reported.
pub open spec fn task_of(doc: Json) -> Result<TaskView, DecodeErrorView> {
    if text_field(doc, "task_id"@) is None {
        Err(DecodeErrorView::Field("task_id"@))
    } else if datetime_field(doc, "created"@) is None {
        Err(DecodeErrorView::Field("created"@))
    } else if datetime_field(doc, "started"@) is None {
        Err(DecodeErrorView::Field("started"@))
    } else if datetime_field(doc, "finished"@) is None {
        Err(DecodeErrorView::Field("finished"@))
    } else if state_field(doc) is None {
        Err(DecodeErrorView::Field("state"@))
    } else if text_field(doc, "input"@) is None {
        Err(DecodeErrorView::Field("input"@))
    } else if optional_text_field(doc, "proof"@) is None {
        Err(DecodeErrorView::Field("proof"@))
    } else if optional_text_field(doc, "error"@) is None {
        Err(DecodeErrorView::Field("error"@))
    } else if proof_type_field(doc) is None {
        Err(DecodeErrorView::Field("proof_type"@))
    } else {
        Ok(
            TaskView {
                task_id: text_field(doc, "task_id"@).unwrap(),
                created: datetime_field(doc, "created"@).unwrap(),
                started: datetime_field(doc, "started"@).unwrap(),
                finished: datetime_field(doc, "finished"@).unwrap(),
                state: state_field(doc).unwrap(),
                input: text_field(doc, "input"@).unwrap(),
                proof: optional_text_field(doc, "proof"@).unwrap(),
                error: optional_text_field(doc, "error"@).unwrap(),
                proof_type: proof_type_field(doc).unwrap(),
            },
        )
    }
}

/// What a text holds when read as a task.
pub open spec fn decode_task(text: Seq<char>) -> Result<TaskView, DecodeErrorView> {
    match json_parse(text) {
        Ok(doc) => task_of(doc),
        Err(message) => Err(DecodeErrorView::Syntax(message)),
    }
}

impl SnarkifyGetTaskResponse {
    /// Reads a task from a JSON value.
    pub fn from_value(doc: &serde_json::Value) -> (r: Result<SnarkifyGetTaskResponse, DecodeError>)
        ensures
            match r {
                Ok(task) => task_of(json_model(*doc)) == Ok::<TaskView, DecodeErrorView>(task@),
                Err(error) => task_of(json_model(*doc)) == Err::<TaskView, DecodeErrorView>(
                    error@,
                ),
            },
    {
        let task_id = match read_text(doc, "task_id") {
            Some(text) => String::from_str(text),
            None => { return Err(DecodeError::Field("task_id")); },
        };
        let created = match read_datetime(doc, "created") {
            Some(instant) => instant,
            None => { return Err(DecodeError::Field("created")); },
        };
        let started = match read_datetime(doc, "started") {
            Some(instant) => instant,
            None => { return Err(DecodeError::Field("started")); },
        };
        let finished = match read_datetime(doc, "finished") {
            Some(instant) => instant,
            None => { return Err(DecodeError::Field("finished")); },
        };
        let state = match read_state(doc) {
            Some(state) => state,
            None => { return Err(DecodeError::Field("state")); },
        };
        let input = match read_text(doc, "input") {
            Some(text) => String::from_str(text),
            None => { return Err(DecodeError::Field("input")); },
        };
        let proof = match read_optional_text(doc, "proof") {
            Some(text) => text,
            None => { return Err(DecodeError::Field("proof")); },
        };
        let error = match read_optional_text(doc, "error") {
            Some(text) => text,
            None => { return Err(DecodeError::Field("error")); },
        };
        let proof_type = match read_proof_type(doc) {
            Some(proof_type) => proof_type,
            None => { return Err(DecodeError::Field("proof_type")); },
        };
        Ok(
            SnarkifyGetTaskResponse {
                task_id,
                created,
                started,
                finished,
                state,
                input,
                proof,
                error,
                proof_type,
            },
        )
    }

    /// Reads a task from the text of a response body.
    pub fn decode(text: &str) -> (r: Result<SnarkifyGetTaskResponse, DecodeError>)
        ensures
            match r {
                Ok(task) => decode_task(text@) == Ok::<TaskView, DecodeErrorView>(task@),
                Err(error) => decode_task(text@) == Err::<TaskView, DecodeErrorView>(error@),
            },
    {
        match crate::json::parse(text) {
            Ok(doc) => SnarkifyGetTaskResponse::from_value(&doc),
            Err(message) => Err(DecodeError::Syntax(message)),
        }
    }
}

/// A proof request asks for a task exactly where its circuit type can be
/// proved; the task then carries the request's own fields, and never the
/// circuit type `Undefined`.
pub proof fn lemma_create_task_request(request: ProveRequestView)
    ensures
        create_task_request_of(request) is Some <==> request.circuit_type.is_defined(),
        create_task_request_of(request) matches Some(task) ==> {
            &&& task.is_consistent()
            &&& task.input.circuit_type == request.circuit_type
            &&& task.input.circuit_type != CircuitType::Undefined
            &&& task.input.circuit_version == request.circuit_version
            &&& task.input.hard_fork_name == request.hard_fork_name
            &&& task.input.task_data == request.input
        },
{
}

} // verus!
