//! Task states as the proving platform reports them, and task statuses as the
//! orchestration framework understands them.
use vstd::prelude::*;
use crate::text::same_text;

verus! {

/// The state of a task as the proving platform reports it.
#[derive(Clone, Copy, Debug, PartialEq, Eq, Structural)]
pub enum SnarkifyTaskState {
    Pending,
    Success,
    Failure,
}

/// The status of a task as the orchestration framework understands it.
///
/// `Queued` never stands for a platform state: the adapter reports
/// it only where it could not find out the real status.
#[derive(Clone, Copy, Debug, PartialEq, Eq, Structural)]
pub enum TaskStatus {
    Queued,
    Proving,
    Success,
    Failed,
}

impl SnarkifyTaskState {
    /// The status that the orchestration framework is told for this state.
    pub open spec fn status(self) -> TaskStatus {
        match self {
            SnarkifyTaskState::Pending => TaskStatus::Proving,
            SnarkifyTaskState::Success => TaskStatus::Success,
            SnarkifyTaskState::Failure => TaskStatus::Failed,
        }
    }

    /// The upper-cased name under which this state travels in JSON.
    pub open spec fn spec_wire_name(self) -> Seq<char> {
        match self {
            SnarkifyTaskState::Pending => "PENDING"@,
            SnarkifyTaskState::Success => "SUCCESS"@,
            SnarkifyTaskState::Failure => "FAILURE"@,
        }
    }

    /// The state that a name read from JSON stands for, if any.
    pub open spec fn spec_from_wire_name(name: Seq<char>) -> Option<SnarkifyTaskState> {
        if name == "PENDING"@ {
            Some(SnarkifyTaskState::Pending)
        } else if name == "SUCCESS"@ {
            Some(SnarkifyTaskState::Success)
        } else if name == "FAILURE"@ {
            Some(SnarkifyTaskState::Failure)
        } else {
            None
        }
    }

    pub fn wire_name(self) -> (r: &'static str)
        ensures
            r@ == self.spec_wire_name(),
    {
        match self {
            SnarkifyTaskState::Pending => "PENDING",
            SnarkifyTaskState::Success => "SUCCESS",
            SnarkifyTaskState::Failure => "FAILURE",
        }
    }

    pub fn from_wire_name(name: &str) -> (r: Option<SnarkifyTaskState>)
        ensures
            r == SnarkifyTaskState::spec_from_wire_name(name@),
    {
        if same_text(name, "PENDING") {
            Some(SnarkifyTaskState::Pending)
        } else if same_text(name, "SUCCESS") {
            Some(SnarkifyTaskState::Success)
        } else if same_text(name, "FAILURE") {
            Some(SnarkifyTaskState::Failure)
        } else {
            None
        }
    }
}

impl From<SnarkifyTaskState> for TaskStatus {
    fn from(state: SnarkifyTaskState) -> (status: TaskStatus) {
        match state {
            SnarkifyTaskState::Pending => TaskStatus::Proving,
            SnarkifyTaskState::Success => TaskStatus::Success,
            SnarkifyTaskState::Failure => TaskStatus::Failed,
        }
    }
}

impl vstd::std_specs::convert::FromSpecImpl<SnarkifyTaskState> for TaskStatus {
    open spec fn obeys_from_spec() -> bool {
        true
    }

    open spec fn from_spec(state: SnarkifyTaskState) -> TaskStatus {
        state.status()
    }
}

/// The status that the caller is told for a platform state.
pub fn task_status_of(state: SnarkifyTaskState) -> (status: TaskStatus)
    ensures
        status == state.status(),
        status != TaskStatus::Queued,
{
    TaskStatus::from(state)
}

/// No platform state is reported as `Queued`.
pub proof fn lemma_status_never_queued(state: SnarkifyTaskState)
    ensures
        state.status() != TaskStatus::Queued,
        state == SnarkifyTaskState::Pending ==> state.status() == TaskStatus::Proving,
        state == SnarkifyTaskState::Success ==> state.status() == TaskStatus::Success,
        state == SnarkifyTaskState::Failure ==> state.status() == TaskStatus::Failed,
{
}

/// Different platform states are told as different statuses.
pub proof fn lemma_status_injective(a: SnarkifyTaskState, b: SnarkifyTaskState)
    requires
        a.status() == b.status(),
    ensures
        a == b,
{
}

/// A state is found again from the name it travels under.
pub proof fn lemma_state_wire_name_round_trip(state: SnarkifyTaskState)
    ensures
        SnarkifyTaskState::spec_from_wire_name(state.spec_wire_name()) == Some(state),
{
    reveal_strlit("PENDING");
    reveal_strlit("SUCCESS");
    reveal_strlit("FAILURE");
    assert("PENDING"@[0] == 'P');
    assert("SUCCESS"@[0] == 'S');
    assert("FAILURE"@[0] == 'F');
}

} // verus!
