use chatlog_bridge::entry::format_entry;
use chatlog_bridge::logger::{dispatch_done, LogError, LogPlan, LoggerCore};

#[test]
fn log_before_readiness_fails_with_not_ready() {
    let mut c = LoggerCore::new();
    assert_eq!(c.log_begin(), Err(LogError::NotReady));
    // Still failing, and no creation was ever started: as soon as the
    // readiness signal arrives, the first caller is the one to create
    // the thread.
    assert_eq!(c.log_begin(), Err(LogError::NotReady));
    c.connection_ready(9);
    assert_eq!(c.log_begin(), Ok(LogPlan::StartCreate { handle: 9 }));
}

#[test]
fn creation_failure_maps_to_thread_unavailable() {
    let mut c = LoggerCore::new();
    c.connection_ready(4);
    assert_eq!(c.log_begin(), Ok(LogPlan::StartCreate { handle: 4 }));
    assert_eq!(c.thread_created(Err(())), Err(LogError::ThreadUnavailable));
    // The failure is not cached: the next call may try again.
    assert_eq!(c.log_begin(), Ok(LogPlan::StartCreate { handle: 4 }));
}

#[test]
fn dispatch_failure_maps_to_dispatch_failed() {
    assert_eq!(dispatch_done(Ok(())), Ok(()));
    assert_eq!(dispatch_done(Err(())), Err(LogError::DispatchFailed));
}

#[test]
fn concurrent_log_calls_await_one_creation() {
    let mut c = LoggerCore::new();
    c.connection_ready(2);
    assert_eq!(c.log_begin(), Ok(LogPlan::StartCreate { handle: 2 }));
    // A second call arriving before the creation resolves must wait,
    // not create a second thread.
    assert_eq!(c.log_begin(), Ok(LogPlan::AwaitCreate));
    assert_eq!(c.thread_created(Ok(77)), Ok(77));
    assert_eq!(c.log_begin(), Ok(LogPlan::Dispatch { handle: 2, thread: 77 }));
}

#[test]
fn end_to_end_two_entries_one_thread() {
    // The gateway becomes ready, then two entries are published.
    let mut c = LoggerCore::new();
    c.connection_ready(1);

    // First entry: creates the thread, then dispatches with a footer.
    assert_eq!(c.log_begin(), Ok(LogPlan::StartCreate { handle: 1 }));
    assert_eq!(c.thread_created(Ok(55)), Ok(55));
    let first = format_entry("assistant", "result: 42", Some("req-7"), 1000);
    assert_eq!(first.title, "\u{1f4ac} ASSISTANT");
    assert_eq!(first.body, "result: 42");
    assert_eq!(first.footer.as_deref(), Some("req-7"));
    assert_eq!(first.color, 0x2ecc71);
    assert_eq!(dispatch_done(Ok(())), Ok(()));

    // Second entry: reuses the same thread, zero additional creations,
    // and carries no footer.
    assert_eq!(c.log_begin(), Ok(LogPlan::Dispatch { handle: 1, thread: 55 }));
    let second = format_entry("human", "ok", None, 1001);
    assert_eq!(second.title, "\u{1f4ac} HUMAN");
    assert_eq!(second.body, "ok");
    assert_eq!(second.footer, None);
    assert_eq!(second.color, 0x3498db);
    assert_eq!(dispatch_done(Ok(())), Ok(()));
}
