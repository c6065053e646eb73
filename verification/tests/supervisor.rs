use chatlog_bridge::supervisor::{Supervisor, TaskId, TaskOutcome};

#[test]
fn first_completion_decides_the_outcome() {
    // Task A (the protocol session) finishes first with success; task
    // B's later completion changes nothing.
    let mut s = Supervisor::new();
    assert_eq!(s.outcome(), None);
    s.task_completed(TaskId::ProtocolSession, TaskOutcome::Success);
    assert_eq!(s.outcome(), Some((TaskId::ProtocolSession, TaskOutcome::Success)));
    s.task_completed(TaskId::GatewayConnection, TaskOutcome::Failure);
    assert_eq!(s.outcome(), Some((TaskId::ProtocolSession, TaskOutcome::Success)));
}

#[test]
fn failure_of_the_first_finisher_propagates() {
    let mut s = Supervisor::new();
    s.task_completed(TaskId::GatewayConnection, TaskOutcome::Failure);
    assert_eq!(s.outcome(), Some((TaskId::GatewayConnection, TaskOutcome::Failure)));
    s.task_completed(TaskId::ProtocolSession, TaskOutcome::Success);
    assert_eq!(s.outcome(), Some((TaskId::GatewayConnection, TaskOutcome::Failure)));
}
