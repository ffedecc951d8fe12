use malai::graceful::{
    Graceful, ShutdownAction, ShutdownPhase, ShutdownSignal, GRACE_TICKS, GRACE_TICK_SECS,
    INTERRUPT_WINDOW_SECS,
};

#[test]
fn graceful_constants() {
    assert_eq!(INTERRUPT_WINDOW_SECS, 3);
    assert_eq!(GRACE_TICK_SECS, 3);
    assert_eq!(GRACE_TICKS, 10);
}

#[test]
fn graceful_single_interrupt_only_shows_status() {
    let mut graceful = Graceful::new();
    assert_eq!(graceful.phase(), ShutdownPhase::Running);
    assert_eq!(graceful.shutdown(ShutdownSignal::Interrupt), ShutdownAction::ShowInfo);
    assert_eq!(graceful.phase(), ShutdownPhase::Armed);
    assert!(!graceful.cancelled());
    assert_eq!(graceful.shutdown(ShutdownSignal::WindowElapsed), ShutdownAction::Remind);
    assert_eq!(graceful.phase(), ShutdownPhase::Running);
    assert!(!graceful.cancelled());
}

#[test]
fn graceful_second_interrupt_cancels_and_drains() {
    let mut graceful = Graceful::new();
    graceful.shutdown(ShutdownSignal::Interrupt);
    assert_eq!(graceful.shutdown(ShutdownSignal::Interrupt), ShutdownAction::Cancel);
    assert!(graceful.cancelled());
    assert_eq!(graceful.phase(), ShutdownPhase::Draining(0));
    assert_eq!(graceful.shutdown(ShutdownSignal::GraceElapsed), ShutdownAction::KeepWaiting);
    assert_eq!(graceful.phase(), ShutdownPhase::Draining(1));
    assert_eq!(graceful.shutdown(ShutdownSignal::TasksDrained), ShutdownAction::Exit);
    assert_eq!(graceful.phase(), ShutdownPhase::Finished);
    assert!(graceful.cancelled());
}

#[test]
fn graceful_drain_gives_up_after_the_grace_period() {
    let mut graceful = Graceful::new();
    graceful.shutdown(ShutdownSignal::Interrupt);
    graceful.shutdown(ShutdownSignal::Interrupt);
    for look in 1..=GRACE_TICKS {
        assert_eq!(graceful.shutdown(ShutdownSignal::GraceElapsed), ShutdownAction::KeepWaiting);
        assert_eq!(graceful.phase(), ShutdownPhase::Draining(look));
    }
    assert_eq!(graceful.shutdown(ShutdownSignal::GraceElapsed), ShutdownAction::ExitOnTimeout);
    assert_eq!(graceful.phase(), ShutdownPhase::Finished);
    assert_eq!(graceful.shutdown(ShutdownSignal::Interrupt), ShutdownAction::Ignore);
    assert_eq!(graceful.shutdown(ShutdownSignal::GraceElapsed), ShutdownAction::Ignore);
    assert_eq!(graceful.phase(), ShutdownPhase::Finished);
}

#[test]
fn graceful_ignores_signals_out_of_phase() {
    let mut graceful = Graceful::new();
    assert_eq!(graceful.shutdown(ShutdownSignal::WindowElapsed), ShutdownAction::Ignore);
    assert_eq!(graceful.shutdown(ShutdownSignal::TasksDrained), ShutdownAction::Ignore);
    assert_eq!(graceful.shutdown(ShutdownSignal::GraceElapsed), ShutdownAction::Ignore);
    assert_eq!(graceful.phase(), ShutdownPhase::Running);
    graceful.shutdown(ShutdownSignal::Interrupt);
    assert_eq!(graceful.shutdown(ShutdownSignal::TasksDrained), ShutdownAction::Ignore);
    assert_eq!(graceful.phase(), ShutdownPhase::Armed);
    graceful.shutdown(ShutdownSignal::Interrupt);
    assert_eq!(graceful.shutdown(ShutdownSignal::Interrupt), ShutdownAction::Ignore);
    assert_eq!(graceful.shutdown(ShutdownSignal::WindowElapsed), ShutdownAction::Ignore);
    assert_eq!(graceful.phase(), ShutdownPhase::Draining(0));
}
