//! The events the host receives: line output, termination, and errors.

use vstd::prelude::*;
use vstd::string::StringExecFns;
use crate::decimal::dec_int;
use crate::decimal::i32_to_decimal;
use crate::errors::SupervisorError;
use crate::errors::wait_failed_message;

verus! {

/// Which stream of the child a line of output came from.
#[derive(Clone, Copy, Debug, PartialEq, Eq, Structural)]
pub enum OutputOrigin {
    Stdout,
    Stderr,
}

/// The kind of an emitted event; it determines the event name the host sees.
#[derive(Clone, Copy, Debug, PartialEq, Eq, Structural)]
pub enum EventKind {
    /// One line of child output (`app-output`).
    Output,
    /// The child exited and its status was observed (`app-terminated`).
    Terminated,
    /// A failure while supervising the child (`app-error`).
    Error,
}

/// An event as delivered to the host: an event name (from the kind) and a
/// message payload.
#[derive(Clone, Debug, PartialEq, Eq)]
pub struct AppEvent {
    pub kind: EventKind,
    pub message: String,
}

/// The ghost image of an event: its kind and the characters of its message.
pub ghost struct EventView {
    pub kind: EventKind,
    pub message: Seq<char>,
}

impl View for AppEvent {
    type V = EventView;

    open spec fn view(&self) -> EventView {
        EventView { kind: self.kind, message: self.message@ }
    }
}

/// The event name under which the host receives each kind of event.
pub open spec fn event_name_spec(kind: EventKind) -> Seq<char> {
    match kind {
        EventKind::Output => "app-output"@,
        EventKind::Terminated => "app-terminated"@,
        EventKind::Error => "app-error"@,
    }
}

/// A terminal event reports the end of a process lifetime: termination or error,
/// never a line of output.
pub open spec fn is_terminal(kind: EventKind) -> bool {
    kind is Terminated || kind is Error
}

impl AppEvent {
    /// The event name the host subscribes to for this event.
    pub fn name(&self) -> (r: &'static str)
        ensures
            r@ == event_name_spec(self.kind),
    {
        match self.kind {
            EventKind::Output => "app-output",
            EventKind::Terminated => "app-terminated",
            EventKind::Error => "app-error",
        }
    }
}

/// The payload text relayed for one line: stdout verbatim, stderr with
/// `"ERROR: "` prepended.
pub open spec fn relayed_text(origin: OutputOrigin, line: Seq<char>) -> Seq<char> {
    match origin {
        OutputOrigin::Stdout => line,
        OutputOrigin::Stderr => "ERROR: "@ + line,
    }
}

/// The output event relayed for one line.
pub open spec fn relayed_event(origin: OutputOrigin, line: Seq<char>) -> EventView {
    EventView { kind: EventKind::Output, message: relayed_text(origin, line) }
}

/// Turns one line read from the child into the output event for the host.
pub fn relay_line(origin: OutputOrigin, line: String) -> (ev: AppEvent)
    ensures
        ev@ == relayed_event(origin, line@),
{
    match origin {
        OutputOrigin::Stdout => AppEvent { kind: EventKind::Output, message: line },
        OutputOrigin::Stderr => {
            let mut message = "ERROR: ".to_owned();
            message.append(line.as_str());
            AppEvent { kind: EventKind::Output, message }
        },
    }
}

/// Relays a whole stream's lines in arrival order: one output event per line.
pub fn relay_stream(origin: OutputOrigin, lines: &Vec<String>) -> (evs: Vec<AppEvent>)
    ensures
        evs@.len() == lines@.len(),
        forall|i: int| 0 <= i < lines@.len() ==> evs@[i]@ == relayed_event(origin, lines@[i]@),
{
    let mut evs: Vec<AppEvent> = Vec::new();
    let mut k: usize = 0;
    while k < lines.len()
        invariant
            k <= lines@.len(),
            evs@.len() == k,
            forall|i: int| 0 <= i < k ==> evs@[i]@ == relayed_event(origin, lines@[i]@),
        decreases lines@.len() - k,
    {
        evs.push(relay_line(origin, lines[k].clone()));
        k += 1;
    }
    evs
}

/// The termination message: `"Exit code: <n>"`, with `-1` standing in when the
/// exit code is unavailable.
pub open spec fn termination_message_spec(code: Option<i32>) -> Seq<char> {
    "Exit code: "@ + dec_int(
        match code {
            Some(c) => c as int,
            None => -1,
        },
    )
}

/// Renders the termination message for an observed exit status.
pub fn termination_message(code: Option<i32>) -> (s: String)
    ensures
        s@ == termination_message_spec(code),
{
    let c: i32 = match code {
        Some(c) => c,
        None => -1,
    };
    let mut s = "Exit code: ".to_owned();
    s.append(i32_to_decimal(c).as_str());
    s
}

/// The ghost image of a wait outcome: the exit code on success, the error text
/// on failure.
pub open spec fn terminal_event_spec(wait: Result<Option<i32>, Seq<char>>) -> EventView {
    match wait {
        Ok(code) => EventView {
            kind: EventKind::Terminated,
            message: termination_message_spec(code),
        },
        Err(reason) => EventView { kind: EventKind::Error, message: wait_failed_message(reason) },
    }
}

/// The ghost image of an exec-level wait outcome.
pub open spec fn wait_view(wait: Result<Option<i32>, String>) -> Result<Option<i32>, Seq<char>> {
    match wait {
        Ok(code) => Ok(code),
        Err(reason) => Err(reason@),
    }
}

/// Builds the single terminal event for a completed wait: a termination event
/// when the wait succeeded, an error event when it failed — exactly one event
/// for every outcome, and never an output event.
pub fn terminal_event(wait: Result<Option<i32>, String>) -> (ev: AppEvent)
    ensures
        ev@ == terminal_event_spec(wait_view(wait)),
        is_terminal(ev@.kind),
        ev@.kind is Terminated <==> wait is Ok,
{
    match wait {
        Ok(code) => AppEvent { kind: EventKind::Terminated, message: termination_message(code) },
        Err(reason) => {
            let err = SupervisorError::WaitFailed(reason);
            AppEvent { kind: EventKind::Error, message: err.message() }
        },
    }
}

/// The events of one whole relayed stream, at the ghost level.
pub open spec fn relayed_all(origin: OutputOrigin, lines: Seq<Seq<char>>) -> Seq<EventView> {
    Seq::new(lines.len(), |i: int| relayed_event(origin, lines[i]))
}

/// Law: for a child that writes its lines to stdout and stderr, relaying both
/// streams produces exactly one output event per line — stdout lines verbatim,
/// stderr lines prefixed `"ERROR: "` — and each stream's order is preserved
/// (the event at position `i` carries line `i`).
pub proof fn lemma_relay_counts(out_lines: Seq<Seq<char>>, err_lines: Seq<Seq<char>>)
    ensures
        relayed_all(OutputOrigin::Stdout, out_lines).len() + relayed_all(
            OutputOrigin::Stderr,
            err_lines,
        ).len() == out_lines.len() + err_lines.len(),
        forall|i: int|
            0 <= i < out_lines.len() ==> relayed_all(OutputOrigin::Stdout, out_lines)[i]
                == (EventView { kind: EventKind::Output, message: out_lines[i] }),
        forall|i: int|
            0 <= i < err_lines.len() ==> relayed_all(OutputOrigin::Stderr, err_lines)[i]
                == (EventView { kind: EventKind::Output, message: "ERROR: "@ + err_lines[i] }),
{
}

} // verus!
