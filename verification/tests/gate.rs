use chatlog_bridge::gate::ReadinessGate;

#[test]
fn fresh_gate_is_empty() {
    let g = ReadinessGate::new();
    assert_eq!(g.get(), None);
}

#[test]
fn write_once_first_handle_wins() {
    let mut g = ReadinessGate::new();
    g.set(11);
    assert_eq!(g.get(), Some(11));
    g.set(22);
    g.set(33);
    g.set(11);
    assert_eq!(g.get(), Some(11));
}

#[test]
fn repeated_reads_see_the_same_handle() {
    let mut g = ReadinessGate::new();
    g.set(7);
    assert_eq!(g.get(), Some(7));
    assert_eq!(g.get(), Some(7));
}
