use backend_core::shutdown::{
    ShutdownCoordinator, ShutdownState, TermSignal, SHUTDOWN_GRACE_MILLIS,
};

#[test]
fn a_fresh_coordinator_is_running_and_accepting() {
    let coordinator = ShutdownCoordinator::new();
    assert_eq!(coordinator.state(), ShutdownState::Running);
    assert!(coordinator.accepts_new());
}

#[test]
fn the_first_signal_starts_draining_and_stops_accepting() {
    let mut coordinator = ShutdownCoordinator::new();
    coordinator.on_signal(TermSignal::Interrupt);
    assert_eq!(coordinator.state(), ShutdownState::Draining);
    assert!(!coordinator.accepts_new());
}

#[test]
fn only_one_signal_transition_fires() {
    let mut coordinator = ShutdownCoordinator::new();
    coordinator.on_signal(TermSignal::Terminate);
    coordinator.on_signal(TermSignal::Interrupt);
    coordinator.on_signal(TermSignal::Terminate);
    assert_eq!(coordinator.state(), ShutdownState::Draining);
}

#[test]
fn draining_stops_only_after_the_grace_delay() {
    let mut coordinator = ShutdownCoordinator::new();
    coordinator.on_signal(TermSignal::Interrupt);
    coordinator.on_drained(false);
    assert_eq!(coordinator.state(), ShutdownState::Draining);
    coordinator.on_drained(true);
    assert_eq!(coordinator.state(), ShutdownState::Stopped);
}

#[test]
fn the_drain_does_nothing_while_running() {
    let mut coordinator = ShutdownCoordinator::new();
    coordinator.on_drained(true);
    assert_eq!(coordinator.state(), ShutdownState::Running);
    assert!(coordinator.accepts_new());
}

#[test]
fn a_signal_after_stopping_changes_nothing() {
    let mut coordinator = ShutdownCoordinator::new();
    coordinator.on_signal(TermSignal::Interrupt);
    coordinator.on_drained(true);
    coordinator.on_signal(TermSignal::Terminate);
    assert_eq!(coordinator.state(), ShutdownState::Stopped);
}

#[test]
fn the_grace_delay_is_two_hundred_milliseconds() {
    assert_eq!(SHUTDOWN_GRACE_MILLIS, 200);
}
