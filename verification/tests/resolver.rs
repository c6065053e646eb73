use chatlog_bridge::resolver::{ThreadResolver, ThreadStep};

#[test]
fn concurrent_callers_share_one_creation() {
    let mut r = ThreadResolver::new();
    // Two logical callers race before the thread exists: exactly one
    // is told to create, the other waits for that attempt.
    assert_eq!(r.begin(), ThreadStep::StartCreate);
    assert_eq!(r.begin(), ThreadStep::AwaitCreate);
    assert_eq!(r.begin(), ThreadStep::AwaitCreate);
    r.complete(Ok(42));
    // Every caller afterwards observes the same identifier.
    assert_eq!(r.begin(), ThreadStep::UseThread(42));
    assert_eq!(r.begin(), ThreadStep::UseThread(42));
    assert_eq!(r.resolved(), Some(42));
}

#[test]
fn failure_is_not_cached() {
    let mut r = ThreadResolver::new();
    assert_eq!(r.begin(), ThreadStep::StartCreate);
    r.complete(Err(()));
    assert_eq!(r.resolved(), None);
    // A later caller may attempt creation again.
    assert_eq!(r.begin(), ThreadStep::StartCreate);
    r.complete(Ok(7));
    assert_eq!(r.begin(), ThreadStep::UseThread(7));
}

#[test]
fn fresh_resolver_has_no_thread() {
    let r = ThreadResolver::new();
    assert_eq!(r.resolved(), None);
}
