use iota_supply::cancel::{CancellationSignal, SignalKind};
use iota_supply::lifecycle::{ServerAction, ServerEvent, ServerState};

#[test]
fn cancellation_starts_armed() {
    let s = CancellationSignal::new();
    assert!(!s.is_cancelled());
}

#[test]
fn cancellation_transitions_once() {
    let mut s = CancellationSignal::new();
    let first = s.observe(SignalKind::Interrupt);
    let second = s.observe(SignalKind::Terminate);
    assert!(first);
    assert!(!second);
    assert!(s.is_cancelled());
}

#[test]
fn cancellation_is_idempotent_per_kind() {
    let mut s = CancellationSignal::new();
    assert!(s.observe(SignalKind::Terminate));
    assert!(!s.observe(SignalKind::Terminate));
    assert!(!s.observe(SignalKind::Interrupt));
    assert!(s.is_cancelled());
}

#[test]
fn server_accepts_until_cancelled() {
    let mut s = ServerState::new();
    assert_eq!(s.step(ServerEvent::Connection), ServerAction::AcceptConnection);
    assert_eq!(s.step(ServerEvent::Connection), ServerAction::AcceptConnection);
    assert_eq!(s.in_flight, 2);
    assert_eq!(s.step(ServerEvent::CancelObserved), ServerAction::BeginDrain);
    assert_eq!(s.step(ServerEvent::Connection), ServerAction::RefuseConnection);
    assert_eq!(s.in_flight, 2);
}

#[test]
fn in_flight_requests_complete_during_drain() {
    let mut s = ServerState::new();
    assert_eq!(s.step(ServerEvent::Connection), ServerAction::AcceptConnection);
    assert_eq!(s.step(ServerEvent::CancelObserved), ServerAction::BeginDrain);
    assert!(!s.may_exit());
    assert_eq!(s.step(ServerEvent::RequestCompleted), ServerAction::SendResponse);
    assert!(s.may_exit());
}

#[test]
fn server_exits_only_after_drain() {
    let mut s = ServerState::new();
    assert!(!s.may_exit());
    s.step(ServerEvent::Connection);
    s.step(ServerEvent::CancelObserved);
    assert!(!s.may_exit());
    s.step(ServerEvent::RequestCompleted);
    assert!(s.may_exit());
}
