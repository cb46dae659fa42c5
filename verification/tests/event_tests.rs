use supervisor::decimal::u64_to_decimal;
use supervisor::decimal::i32_to_decimal;
use supervisor::errors::SupervisorError;
use supervisor::events::relay_line;
use supervisor::events::relay_stream;
use supervisor::events::terminal_event;
use supervisor::events::termination_message;
use supervisor::events::AppEvent;
use supervisor::events::EventKind;
use supervisor::events::OutputOrigin;

#[test]
fn stdout_lines_are_relayed_verbatim() {
    let ev = relay_line(OutputOrigin::Stdout, "hello".to_string());
    assert_eq!(ev.kind, EventKind::Output);
    assert_eq!(ev.message, "hello");
    assert_eq!(ev.name(), "app-output");
}

#[test]
fn stderr_lines_are_relayed_with_error_prefix() {
    let ev = relay_line(OutputOrigin::Stderr, "boom".to_string());
    assert_eq!(ev.kind, EventKind::Output);
    assert_eq!(ev.message, "ERROR: boom");
    assert_eq!(ev.name(), "app-output");
}

#[test]
fn empty_lines_are_relayed_too() {
    let out = relay_line(OutputOrigin::Stdout, String::new());
    assert_eq!(out.message, "");
    let err = relay_line(OutputOrigin::Stderr, String::new());
    assert_eq!(err.message, "ERROR: ");
}

#[test]
fn relaying_both_streams_gives_one_event_per_line_in_order() {
    let out_lines = vec!["a".to_string(), "b".to_string(), "c".to_string()];
    let err_lines = vec!["x".to_string(), "y".to_string()];
    let out_events = relay_stream(OutputOrigin::Stdout, &out_lines);
    let err_events = relay_stream(OutputOrigin::Stderr, &err_lines);
    assert_eq!(out_events.len() + err_events.len(), 5);
    let out_messages: Vec<String> = out_events.iter().map(|e| e.message.clone()).collect();
    assert_eq!(out_messages, vec!["a", "b", "c"]);
    let err_messages: Vec<String> = err_events.iter().map(|e| e.message.clone()).collect();
    assert_eq!(err_messages, vec!["ERROR: x", "ERROR: y"]);
    assert!(out_events.iter().all(|e| e.kind == EventKind::Output));
    assert!(err_events.iter().all(|e| e.kind == EventKind::Output));
}

#[test]
fn relaying_no_lines_gives_no_events() {
    let events = relay_stream(OutputOrigin::Stdout, &Vec::new());
    assert!(events.is_empty());
}

#[test]
fn termination_message_renders_exit_codes() {
    assert_eq!(termination_message(Some(0)), "Exit code: 0");
    assert_eq!(termination_message(Some(1)), "Exit code: 1");
    assert_eq!(termination_message(Some(137)), "Exit code: 137");
    assert_eq!(termination_message(Some(-7)), "Exit code: -7");
}

#[test]
fn termination_message_without_code_uses_minus_one() {
    assert_eq!(termination_message(None), "Exit code: -1");
}

#[test]
fn decimal_rendering_handles_bounds() {
    assert_eq!(u64_to_decimal(0), "0");
    assert_eq!(u64_to_decimal(9), "9");
    assert_eq!(u64_to_decimal(10), "10");
    assert_eq!(u64_to_decimal(409), "409");
    assert_eq!(u64_to_decimal(u64::MAX), "18446744073709551615");
    assert_eq!(i32_to_decimal(i32::MIN), "-2147483648");
    assert_eq!(i32_to_decimal(i32::MAX), "2147483647");
}

#[test]
fn wait_success_gives_exactly_the_termination_event() {
    let ev: AppEvent = terminal_event(Ok(Some(0)));
    assert_eq!(ev.kind, EventKind::Terminated);
    assert_eq!(ev.name(), "app-terminated");
    assert_eq!(ev.message, "Exit code: 0");
}

#[test]
fn wait_failure_gives_exactly_the_error_event() {
    let ev: AppEvent = terminal_event(Err("no child".to_string()));
    assert_eq!(ev.kind, EventKind::Error);
    assert_eq!(ev.name(), "app-error");
    assert_eq!(ev.message, "Error waiting for child process: no child");
}

#[test]
fn error_messages_name_each_failure() {
    assert_eq!(
        SupervisorError::AlreadyRunning.message(),
        "Application is already running."
    );
    assert_eq!(
        SupervisorError::NotRunning.message(),
        "Application is not running."
    );
    assert_eq!(
        SupervisorError::SpawnFailed("bad path".to_string()).message(),
        "Failed to spawn command: bad path"
    );
    assert_eq!(
        SupervisorError::KillFailed("denied".to_string()).message(),
        "Failed to kill process: denied"
    );
    assert_eq!(
        SupervisorError::WaitFailed("gone".to_string()).message(),
        "Error waiting for child process: gone"
    );
}
