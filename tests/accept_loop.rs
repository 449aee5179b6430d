use wire::{AcceptAction, AcceptLoop, AcceptOutcome};

#[test]
fn accepted_connections_are_delivered() {
    let mut l = AcceptLoop::new();
    assert!(l.should_accept(false));
    assert_eq!(l.on_accept(AcceptOutcome::Accepted), AcceptAction::Deliver);
    assert!(l.on_delivered(true));
    assert!(l.is_running());
}

#[test]
fn timeouts_are_retried() {
    let mut l = AcceptLoop::new();
    assert!(l.should_accept(false));
    assert_eq!(l.on_accept(AcceptOutcome::TimedOut), AcceptAction::Retry);
    assert!(l.is_running());
}

#[test]
fn fatal_errors_are_reported_once() {
    let mut l = AcceptLoop::new();
    assert!(l.should_accept(false));
    assert_eq!(l.on_accept(AcceptOutcome::Failed), AcceptAction::ReportAndStop);
    assert!(!l.is_running());
    assert_eq!(l.on_accept(AcceptOutcome::Failed), AcceptAction::Stop);
}

#[test]
fn shutdown_ends_deliveries() {
    let mut l = AcceptLoop::new();
    assert!(l.should_accept(false));
    assert_eq!(l.on_accept(AcceptOutcome::Accepted), AcceptAction::Deliver);
    assert!(l.on_delivered(true));
    assert!(!l.should_accept(true));
    assert_eq!(l.on_accept(AcceptOutcome::Accepted), AcceptAction::Stop);
    assert!(!l.should_accept(false));
}

#[test]
fn consumer_gone_stops_the_loop() {
    let mut l = AcceptLoop::new();
    assert!(l.should_accept(false));
    assert_eq!(l.on_accept(AcceptOutcome::Accepted), AcceptAction::Deliver);
    assert!(!l.on_delivered(false));
    assert!(!l.should_accept(false));
}
