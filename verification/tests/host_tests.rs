use point_rpc::host::{CancelSignal, ServerHost};

#[test]
fn shutdown_stops_accepting() {
    let mut host = ServerHost::start();
    assert!(host.may_accept());
    host.shutdown();
    assert!(!host.may_accept());
}

#[test]
fn shutdown_is_idempotent() {
    let mut host = ServerHost::start();
    host.shutdown();
    host.shutdown();
    host.shutdown();
    assert!(!host.may_accept());
}

#[test]
fn signal_is_monotonic() {
    let mut signal = CancelSignal::new();
    assert!(!signal.is_cancelled());
    signal.cancel();
    assert!(signal.is_cancelled());
    signal.cancel();
    assert!(signal.is_cancelled());
}
