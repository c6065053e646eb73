//! Dual-task supervisor: the process-level race between the protocol
//! session and the gateway connection.
//!
//! Both tasks are started independently; the process terminates the
//! instant either one finishes, taking that task's outcome as the
//! process outcome and abandoning the other task. This is a race, not
//! a join: the first completion is authoritative and nothing after it
//! changes the result.

use vstd::prelude::*;

verus! {

/// The two supervised tasks.
#[derive(Clone, Copy, Debug, PartialEq, Eq, Structural)]
pub enum TaskId {
    /// The request/response protocol session served over stdio.
    ProtocolSession,
    /// The long-lived gateway connection to the chat platform.
    GatewayConnection,
}

/// How a task finished.
#[derive(Clone, Copy, Debug, PartialEq, Eq, Structural)]
pub enum TaskOutcome {
    Success,
    Failure,
}

/// The supervisor's state: both tasks running, or terminated with the
/// first finisher's identity and outcome.
#[derive(Clone, Copy, Debug, PartialEq, Eq, Structural)]
pub enum SupervisorState {
    Running,
    Terminated(TaskId, TaskOutcome),
}

/// What one completion event does: the first one terminates the
/// supervisor with its outcome; any later one is ignored.
pub open spec fn complete_spec(s: SupervisorState, t: TaskId, o: TaskOutcome) -> SupervisorState {
    match s {
        SupervisorState::Running => SupervisorState::Terminated(t, o),
        SupervisorState::Terminated(_, _) => s,
    }
}

/// The first-to-finish race over the two supervised tasks.
pub struct Supervisor {
    state: SupervisorState,
}

impl Supervisor {
    /// The supervisor's abstract state.
    pub closed spec fn state(&self) -> SupervisorState {
        self.state
    }

    /// Both tasks just started: nothing has finished.
    pub fn new() -> (s: Self)
        ensures
            s.state() == SupervisorState::Running,
    {
        Supervisor { state: SupervisorState::Running }
    }

    /// Task `t` finished with outcome `o`. If it is the first to
    /// finish, its outcome becomes the process outcome; otherwise the
    /// event changes nothing.
    pub fn task_completed(&mut self, t: TaskId, o: TaskOutcome)
        ensures
            final(self).state() == complete_spec(old(self).state(), t, o),
    {
        if let SupervisorState::Running = self.state {
            self.state = SupervisorState::Terminated(t, o);
        }
    }

    /// The process outcome: `None` while both tasks run, otherwise
    /// the first finisher and its outcome.
    pub fn outcome(&self) -> (r: Option<(TaskId, TaskOutcome)>)
        ensures
            r == (match self.state() {
                SupervisorState::Running => None::<(TaskId, TaskOutcome)>,
                SupervisorState::Terminated(t, o) => Some((t, o)),
            }),
    {
        match self.state {
            SupervisorState::Running => None,
            SupervisorState::Terminated(t, o) => Some((t, o)),
        }
    }
}

/// First-to-finish law: whichever task completes first decides the
/// process outcome; the other task's later completion is ignored.
pub proof fn lemma_first_to_finish(
    first_task: TaskId,
    first_outcome: TaskOutcome,
    second_task: TaskId,
    second_outcome: TaskOutcome,
)
    ensures
        complete_spec(
            complete_spec(SupervisorState::Running, first_task, first_outcome),
            second_task,
            second_outcome,
        ) == SupervisorState::Terminated(first_task, first_outcome),
{
}

} // verus!
