use supervisor::errors::SupervisorError;
use supervisor::events::relay_stream;
use supervisor::events::terminal_event;
use supervisor::events::EventKind;
use supervisor::events::OutputOrigin;
use supervisor::slot::Supervisor;

#[test]
fn child_printing_two_lines_then_exiting_cleanly() {
    // The child prints "a" and "b" to stdout, then exits with code 0.
    let mut sup: Supervisor<u32> = Supervisor::new();
    assert!(sup.check_start().is_ok());
    assert!(sup.finish_start(Ok(7)).is_ok());

    let lines = vec!["a".to_string(), "b".to_string()];
    let events = relay_stream(OutputOrigin::Stdout, &lines);
    assert_eq!(events.len(), 2);
    assert_eq!(events[0].name(), "app-output");
    assert_eq!(events[0].message, "a");
    assert_eq!(events[1].name(), "app-output");
    assert_eq!(events[1].message, "b");

    assert_eq!(sup.take_for_wait(), Some(7));
    let terminal = terminal_event(Ok(Some(0)));
    assert_eq!(terminal.name(), "app-terminated");
    assert_eq!(terminal.message, "Exit code: 0");
    sup.reconcile_after_wait();

    // A following start succeeds.
    assert!(sup.check_start().is_ok());
    assert!(sup.finish_start(Ok(8)).is_ok());
}

#[test]
fn start_on_empty_slot_succeeds() {
    let mut sup: Supervisor<u32> = Supervisor::new();
    assert!(!sup.is_running());
    assert!(sup.check_start().is_ok());
    assert!(sup.finish_start(Ok(7)).is_ok());
    assert!(sup.is_running());
}

#[test]
fn second_start_while_running_is_already_running() {
    let mut sup: Supervisor<u32> = Supervisor::new();
    assert!(sup.check_start().is_ok());
    assert!(sup.finish_start(Ok(7)).is_ok());
    assert_eq!(sup.check_start(), Err(SupervisorError::AlreadyRunning));
    assert_eq!(sup.check_start(), Err(SupervisorError::AlreadyRunning));
    assert!(sup.is_running());
}

#[test]
fn start_after_natural_exit_succeeds() {
    let mut sup: Supervisor<u32> = Supervisor::new();
    assert!(sup.check_start().is_ok());
    assert!(sup.finish_start(Ok(7)).is_ok());
    // The reaper takes the occupant, observes the exit, and reconciles.
    assert_eq!(sup.take_for_wait(), Some(7));
    let ev = terminal_event(Ok(Some(0)));
    assert_eq!(ev.kind, EventKind::Terminated);
    sup.reconcile_after_wait();
    // The slot is empty again: a following start succeeds.
    assert!(sup.check_start().is_ok());
    assert!(sup.finish_start(Ok(8)).is_ok());
    assert!(sup.is_running());
}

#[test]
fn spawn_failure_reports_reason_and_leaves_slot_empty() {
    let mut sup: Supervisor<u32> = Supervisor::new();
    assert!(sup.check_start().is_ok());
    let r = sup.finish_start(Err("No such file or directory".to_string()));
    assert_eq!(
        r,
        Err(SupervisorError::SpawnFailed(
            "No such file or directory".to_string()
        ))
    );
    assert!(!sup.is_running());
    // A stop immediately afterward finds nothing to stop.
    assert_eq!(sup.take_for_stop(), Err(SupervisorError::NotRunning));
}

#[test]
fn stop_on_empty_slot_is_not_running() {
    let mut sup: Supervisor<u32> = Supervisor::new();
    assert_eq!(sup.take_for_stop(), Err(SupervisorError::NotRunning));
    assert!(!sup.is_running());
}

#[test]
fn stop_with_delivered_kill_keeps_occupant() {
    let mut sup: Supervisor<u32> = Supervisor::new();
    assert!(sup.check_start().is_ok());
    assert!(sup.finish_start(Ok(7)).is_ok());
    let handle = sup.take_for_stop().unwrap();
    assert_eq!(handle, 7);
    assert!(sup.finish_stop(handle, Ok(())).is_ok());
    // The kill was delivered: the occupant stays until the reaper observes
    // the exit.
    assert!(sup.is_running());
    assert_eq!(sup.take_for_wait(), Some(7));
}

#[test]
fn stop_with_failed_kill_clears_slot() {
    let mut sup: Supervisor<u32> = Supervisor::new();
    assert!(sup.check_start().is_ok());
    assert!(sup.finish_start(Ok(7)).is_ok());
    let handle = sup.take_for_stop().unwrap();
    let r = sup.finish_stop(handle, Err("Operation not permitted".to_string()));
    assert_eq!(
        r,
        Err(SupervisorError::KillFailed(
            "Operation not permitted".to_string()
        ))
    );
    assert!(!sup.is_running());
    // The slot was force-cleared: a new start is possible.
    assert!(sup.check_start().is_ok());
}

#[test]
fn reaper_on_empty_slot_takes_nothing() {
    let mut sup: Supervisor<u32> = Supervisor::new();
    assert_eq!(sup.take_for_wait(), None);
    sup.reconcile_after_wait();
    assert!(!sup.is_running());
}
