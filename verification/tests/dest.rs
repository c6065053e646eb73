use chatlog_bridge::dest::Destination;

#[test]
fn thread_name_carries_runtime_context() {
    let d = Destination::new(123, "Conversation Log", "/home/me/project");
    assert_eq!(d.channel_id, 123);
    assert_eq!(d.thread_name, "Conversation Log [/home/me/project]");
}

#[test]
fn empty_context_still_bracketed() {
    let d = Destination::new(1, "Log", "");
    assert_eq!(d.thread_name, "Log []");
}
