//! The errors `start` and `stop` report to the host.

use vstd::prelude::*;
use vstd::string::StringExecFns;

verus! {

/// Everything that can go wrong while supervising the child program.
///
/// `AlreadyRunning`, `SpawnFailed`, `NotRunning` and `KillFailed` are returned
/// synchronously from `start`/`stop`; `WaitFailed` only ever surfaces as an
/// asynchronous error event, because the wait happens in a background task.
#[derive(Clone, Debug, PartialEq, Eq)]
pub enum SupervisorError {
    /// `start` found the slot occupied.
    AlreadyRunning,
    /// The spawn itself failed; the reason is the OS error text.
    SpawnFailed(String),
    /// `stop` found the slot empty.
    NotRunning,
    /// The kill signal could not be delivered; the reason is the OS error text.
    KillFailed(String),
    /// Waiting for the child's exit failed; the reason is the OS error text.
    WaitFailed(String),
}

/// The message text for a wait failure, as carried by an error event.
pub open spec fn wait_failed_message(reason: Seq<char>) -> Seq<char> {
    "Error waiting for child process: "@ + reason
}

/// The message text of each error, as the host receives it.
pub open spec fn error_message_spec(e: SupervisorError) -> Seq<char> {
    match e {
        SupervisorError::AlreadyRunning => "Application is already running."@,
        SupervisorError::SpawnFailed(reason) => "Failed to spawn command: "@ + reason@,
        SupervisorError::NotRunning => "Application is not running."@,
        SupervisorError::KillFailed(reason) => "Failed to kill process: "@ + reason@,
        SupervisorError::WaitFailed(reason) => wait_failed_message(reason@),
    }
}

impl SupervisorError {
    /// Renders the error as the message string the host displays.
    pub fn message(&self) -> (s: String)
        ensures
            s@ == error_message_spec(*self),
    {
        match self {
            SupervisorError::AlreadyRunning => "Application is already running.".to_owned(),
            SupervisorError::SpawnFailed(reason) => "Failed to spawn command: ".to_owned().concat(
                reason.as_str(),
            ),
            SupervisorError::NotRunning => "Application is not running.".to_owned(),
            SupervisorError::KillFailed(reason) => "Failed to kill process: ".to_owned().concat(
                reason.as_str(),
            ),
            SupervisorError::WaitFailed(reason) => "Error waiting for child process: ".to_owned()
                .concat(reason.as_str()),
        }
    }
}

} // verus!
