use signalbot::signal::daemon::{
    announces_readiness, daemon_arguments, daemon_program, fatal, DaemonAction, DaemonError,
    DaemonEvent, DaemonManager, DaemonRequest, DaemonState, Outcome, SHUTDOWN_SECONDS,
    STARTUP_SECONDS,
};

fn line(s: &str) -> DaemonEvent {
    DaemonEvent::Line(s.to_string())
}

fn running() -> DaemonManager {
    let mut m = DaemonManager::new();
    assert_eq!(m.start(), DaemonAction::Spawn);
    assert_eq!(m.on_event(DaemonEvent::Spawned), DaemonAction::ReadLine);
    assert_eq!(
        m.on_event(line("INFO  SocketHandler - Listening on socket: ./signal.sock\n")),
        DaemonAction::Done(Outcome::Started)
    );
    assert_eq!(m.state(), DaemonState::Running);
    m
}

#[test]
fn budgets_are_ten_seconds() {
    assert_eq!(STARTUP_SECONDS, 10);
    assert_eq!(SHUTDOWN_SECONDS, 10);
}

#[test]
fn daemon_command_line() {
    assert_eq!(daemon_program(), "signal-cli");
    assert_eq!(
        daemon_arguments("./signal.sock"),
        vec!["daemon", "--socket", "./signal.sock", "--no-receive-stdout", "--ignore-attachments"]
    );
}

#[test]
fn readiness_is_the_marker_anywhere_in_the_line() {
    assert!(announces_readiness("Listening on socket"));
    assert!(announces_readiness("INFO Listening on socket ./signal.sock\n"));
    assert!(!announces_readiness(""));
    assert!(!announces_readiness("listening on socket"));
    assert!(!announces_readiness("Listening on  socket"));
    assert!(!announces_readiness("Listening on socke"));
}

#[test]
fn a_new_manager_owns_no_daemon() {
    let m = DaemonManager::new();
    assert_eq!(m.state(), DaemonState::Stopped);
}

#[test]
fn start_returns_when_the_marker_appears_on_the_third_line() {
    let mut m = DaemonManager::new();
    assert_eq!(m.start(), DaemonAction::Spawn);
    assert_eq!(m.state(), DaemonState::Starting);
    assert_eq!(m.on_event(DaemonEvent::Spawned), DaemonAction::ReadLine);
    assert_eq!(m.on_event(line("WARN  first\n")), DaemonAction::ReadLine);
    assert_eq!(m.state(), DaemonState::Starting);
    assert_eq!(m.on_event(line("\n")), DaemonAction::ReadLine);
    assert_eq!(
        m.on_event(line("INFO  Listening on socket: ./signal.sock\n")),
        DaemonAction::Done(Outcome::Started)
    );
    assert_eq!(m.state(), DaemonState::Running);
}

#[test]
fn start_without_readiness_kills_and_fails_fatally() {
    let mut m = DaemonManager::new();
    assert_eq!(m.start(), DaemonAction::Spawn);
    assert_eq!(m.on_event(DaemonEvent::Spawned), DaemonAction::ReadLine);
    for i in 0..20 {
        assert_eq!(m.on_event(line(&format!("still loading {}\n", i))), DaemonAction::ReadLine);
        assert_eq!(m.state(), DaemonState::Starting);
    }
    assert_eq!(m.on_event(DaemonEvent::StartupTimeout), DaemonAction::Kill);
    assert_eq!(m.state(), DaemonState::Starting);
    assert_eq!(
        m.on_event(DaemonEvent::Killed),
        DaemonAction::Done(Outcome::Failed(DaemonError::NotReadyInTime))
    );
    assert_eq!(m.state(), DaemonState::Stopped);
    assert!(fatal(DaemonError::NotReadyInTime));
}

#[test]
fn end_of_output_waits_for_the_budget() {
    let mut m = DaemonManager::new();
    m.start();
    m.on_event(DaemonEvent::Spawned);
    assert_eq!(m.on_event(line("")), DaemonAction::AwaitTimeout);
    assert_eq!(m.state(), DaemonState::Starting);
    assert_eq!(m.on_event(DaemonEvent::StartupTimeout), DaemonAction::Kill);
}

#[test]
fn unreadable_output_kills_and_fails_fatally() {
    let mut m = DaemonManager::new();
    m.start();
    m.on_event(DaemonEvent::Spawned);
    assert_eq!(m.on_event(DaemonEvent::ReadFailed), DaemonAction::Kill);
    assert_eq!(
        m.on_event(DaemonEvent::Killed),
        DaemonAction::Done(Outcome::Failed(DaemonError::Unreadable))
    );
    assert_eq!(m.state(), DaemonState::Stopped);
    assert!(fatal(DaemonError::Unreadable));
}

#[test]
fn a_failed_kill_during_start_is_reported_and_owns_nothing() {
    let mut m = DaemonManager::new();
    m.start();
    m.on_event(DaemonEvent::Spawned);
    m.on_event(DaemonEvent::StartupTimeout);
    assert_eq!(
        m.on_event(DaemonEvent::KillFailed),
        DaemonAction::Done(Outcome::Failed(DaemonError::Kill))
    );
    assert_eq!(m.state(), DaemonState::Stopped);
    assert!(!fatal(DaemonError::Kill));
}

#[test]
fn a_failed_spawn_is_reported() {
    let mut m = DaemonManager::new();
    m.start();
    assert_eq!(
        m.on_event(DaemonEvent::SpawnFailed),
        DaemonAction::Done(Outcome::Failed(DaemonError::Spawn))
    );
    assert_eq!(m.state(), DaemonState::Stopped);
    assert!(!fatal(DaemonError::Spawn));
}

#[test]
fn stop_interrupts_and_waits_for_the_exit() {
    let mut m = running();
    assert_eq!(m.stop(Some(4242)), DaemonAction::Interrupt(4242));
    assert_eq!(m.state(), DaemonState::Stopping);
    assert_eq!(m.on_event(DaemonEvent::Interrupted), DaemonAction::AwaitExit);
    assert_eq!(m.on_event(DaemonEvent::Exited), DaemonAction::Done(Outcome::Stopped));
    assert_eq!(m.state(), DaemonState::Stopped);
}

#[test]
fn stop_kills_a_daemon_that_outlives_the_budget() {
    let mut m = running();
    m.stop(Some(1));
    m.on_event(DaemonEvent::Interrupted);
    assert_eq!(m.on_event(DaemonEvent::ShutdownTimeout), DaemonAction::Kill);
    assert_eq!(m.state(), DaemonState::Stopping);
    assert_eq!(m.on_event(DaemonEvent::Killed), DaemonAction::Done(Outcome::Stopped));
    assert_eq!(m.state(), DaemonState::Stopped);
}

#[test]
fn stop_of_an_exited_process_succeeds_at_once() {
    let mut m = running();
    assert_eq!(m.stop(None), DaemonAction::Done(Outcome::Stopped));
    assert_eq!(m.state(), DaemonState::Stopped);
    assert_eq!(m.stop(None), DaemonAction::Done(Outcome::Stopped));
    assert_eq!(m.stop(Some(5)), DaemonAction::Done(Outcome::Stopped));
    assert_eq!(m.state(), DaemonState::Stopped);
}

#[test]
fn a_process_id_that_cannot_be_signalled_fails_the_stop() {
    let mut m = running();
    assert_eq!(
        m.stop(Some(2147483648)),
        DaemonAction::Done(Outcome::Failed(DaemonError::ProcessId))
    );
    assert_eq!(m.state(), DaemonState::Running);
    assert_eq!(m.stop(Some(2147483647)), DaemonAction::Interrupt(2147483647));
}

#[test]
fn a_failed_interrupt_leaves_the_daemon_running() {
    let mut m = running();
    m.stop(Some(7));
    assert_eq!(
        m.on_event(DaemonEvent::InterruptFailed),
        DaemonAction::Done(Outcome::Failed(DaemonError::Interrupt))
    );
    assert_eq!(m.state(), DaemonState::Running);
}

#[test]
fn a_failed_kill_during_stop_leaves_the_daemon_running() {
    let mut m = running();
    m.stop(Some(7));
    m.on_event(DaemonEvent::Interrupted);
    m.on_event(DaemonEvent::ShutdownTimeout);
    assert_eq!(
        m.on_event(DaemonEvent::KillFailed),
        DaemonAction::Done(Outcome::Failed(DaemonError::Kill))
    );
    assert_eq!(m.state(), DaemonState::Running);
}

#[test]
fn restart_is_stop_then_start() {
    let mut m = running();
    assert_eq!(m.restart(Some(7)), DaemonAction::Interrupt(7));
    assert_eq!(m.on_event(DaemonEvent::Interrupted), DaemonAction::AwaitExit);
    assert_eq!(m.on_event(DaemonEvent::Exited), DaemonAction::Spawn);
    assert_eq!(m.state(), DaemonState::Starting);
    assert_eq!(m.on_event(DaemonEvent::Spawned), DaemonAction::ReadLine);
    assert_eq!(m.on_event(line("Listening on socket\n")), DaemonAction::Done(Outcome::Started));
    assert_eq!(m.state(), DaemonState::Running);
}

#[test]
fn restart_whose_stop_fails_starts_nothing() {
    let mut m = running();
    m.restart(Some(7));
    assert_eq!(
        m.on_event(DaemonEvent::InterruptFailed),
        DaemonAction::Done(Outcome::Failed(DaemonError::Interrupt))
    );
    assert_eq!(m.state(), DaemonState::Running);
    assert_eq!(m.stop(Some(7)), DaemonAction::Interrupt(7));
    m.on_event(DaemonEvent::Interrupted);
    assert_eq!(m.on_event(DaemonEvent::Exited), DaemonAction::Done(Outcome::Stopped));
}

#[test]
fn a_second_restart_waits_behind_the_first() {
    let mut m = running();
    let mut spawns = 0;
    let first = m.restart(Some(7));
    assert_eq!(first, DaemonAction::Interrupt(7));
    assert_eq!(m.restart(Some(7)), DaemonAction::Wait);
    assert_eq!(m.on_event(DaemonEvent::Interrupted), DaemonAction::AwaitExit);
    assert_eq!(m.restart(Some(7)), DaemonAction::Wait);
    assert_eq!(m.request(DaemonRequest::Start), DaemonAction::Wait);
    assert_eq!(m.request(DaemonRequest::Stop(Some(7))), DaemonAction::Wait);
    if m.on_event(DaemonEvent::Exited) == DaemonAction::Spawn {
        spawns += 1;
    }
    assert_eq!(m.restart(Some(7)), DaemonAction::Wait);
    assert_eq!(m.on_event(DaemonEvent::Spawned), DaemonAction::ReadLine);
    assert_eq!(m.restart(Some(7)), DaemonAction::Wait);
    assert_eq!(m.on_event(line("Listening on socket\n")), DaemonAction::Done(Outcome::Started));
    assert_eq!(spawns, 1);
    assert_eq!(m.restart(Some(8)), DaemonAction::Interrupt(8));
}

#[test]
fn start_of_a_running_daemon_spawns_nothing() {
    let mut m = running();
    assert_eq!(m.start(), DaemonAction::Done(Outcome::Started));
    assert_eq!(m.state(), DaemonState::Running);
}

#[test]
fn restart_of_a_stopped_daemon_starts_it() {
    let mut m = DaemonManager::new();
    assert_eq!(m.restart(None), DaemonAction::Spawn);
    assert_eq!(m.state(), DaemonState::Starting);
}

#[test]
fn events_out_of_turn_are_ignored() {
    let mut m = DaemonManager::new();
    assert_eq!(m.on_event(DaemonEvent::Spawned), DaemonAction::Ignore);
    assert_eq!(m.on_event(line("Listening on socket")), DaemonAction::Ignore);
    assert_eq!(m.state(), DaemonState::Stopped);
    let mut m = running();
    assert_eq!(m.on_event(DaemonEvent::Killed), DaemonAction::Ignore);
    assert_eq!(m.on_event(DaemonEvent::StartupTimeout), DaemonAction::Ignore);
    assert_eq!(m.state(), DaemonState::Running);
}
