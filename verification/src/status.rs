//! The status reported to the user interface and the log entries it receives.

use vstd::prelude::*;
use crate::clock::timestamp_millis;
use crate::text::{decimal, prefixed};

verus! {

/// The name of the event that carries a log entry.
pub const LOG_EVENT: &'static str = "goodbyedpi://log";

/// The name of the event that carries a new status.
pub const STATUS_EVENT: &'static str = "goodbyedpi://status";

/// Whether GoodbyeDPI runs, is stopped, or failed.
#[derive(PartialEq, Eq, Structural, Clone, Copy, Debug)]
pub enum RunState {
    Stopped,
    Running,
    Error,
}

/// The name under which a state is shown to the user interface.
pub open spec fn run_state_label(state: RunState) -> Seq<char> {
    match state {
        RunState::Stopped => "stopped"@,
        RunState::Running => "running"@,
        RunState::Error => "error"@,
    }
}

impl RunState {
    /// The name under which this state is shown to the user interface.
    pub fn label(&self) -> (name: String)
        ensures
            name@ == run_state_label(*self),
    {
        match self {
            RunState::Stopped => String::from_str("stopped"),
            RunState::Running => String::from_str("running"),
            RunState::Error => String::from_str("error"),
        }
    }
}

/// What the user interface is told about the managed process.
pub struct RuntimeStatus {
    pub state: RunState,
    pub active_preset_id: Option<String>,
    pub pid: Option<u32>,
    pub last_error: Option<String>,
    pub resource_path: Option<String>,
}

/// The mathematical model of a [`RuntimeStatus`].
pub struct StatusView {
    pub state: RunState,
    pub active_preset_id: Option<Seq<char>>,
    pub pid: Option<u32>,
    pub last_error: Option<Seq<char>>,
    pub resource_path: Option<Seq<char>>,
}

impl View for RuntimeStatus {
    type V = StatusView;

    open spec fn view(&self) -> StatusView {
        StatusView {
            state: self.state,
            active_preset_id: self.active_preset_id.deep_view(),
            pid: self.pid,
            last_error: self.last_error.deep_view(),
            resource_path: self.resource_path.deep_view(),
        }
    }
}

/// A status that tells one consistent story: a stopped process names no
/// preset, process id or error; a running one names its preset and process
/// id and no error; a failed one carries an error and no process id.
pub open spec fn status_coherent(status: StatusView) -> bool {
    match status.state {
        RunState::Stopped => status.active_preset_id is None && status.pid is None && status.last_error is None,
        RunState::Running => status.active_preset_id is Some && status.pid is Some && status.last_error is None,
        RunState::Error => status.pid is None && status.last_error is Some,
    }
}

/// The status of a stopped process whose resources lie at `resource_path`.
pub open spec fn stopped_status(resource_path: Option<Seq<char>>) -> StatusView {
    StatusView {
        state: RunState::Stopped,
        active_preset_id: None,
        pid: None,
        last_error: None,
        resource_path,
    }
}

/// A copy of an optional string.
pub fn copy_text(text: &Option<String>) -> (copy: Option<String>)
    ensures
        copy == *text,
{
    match text {
        Some(t) => Some(t.clone()),
        None => None,
    }
}

impl RuntimeStatus {
    /// The status of a stopped process whose resources lie at `resource_path`.
    pub fn stopped(resource_path: Option<String>) -> (status: Self)
        ensures
            status@ == stopped_status(resource_path.deep_view()),
            status_coherent(status@),
    {
        RuntimeStatus {
            state: RunState::Stopped,
            active_preset_id: None,
            pid: None,
            last_error: None,
            resource_path,
        }
    }

    /// An identical copy of this status.
    pub fn duplicate(&self) -> (copy: Self)
        ensures
            copy == *self,
    {
        RuntimeStatus {
            state: self.state,
            active_preset_id: copy_text(&self.active_preset_id),
            pid: self.pid,
            last_error: copy_text(&self.last_error),
            resource_path: copy_text(&self.resource_path),
        }
    }
}

/// The status shown when the launcher opens: stopped with the resource
/// directory when it was found, otherwise an error that says why not.
pub fn initial_status(resource_dir: Result<String, String>) -> (status: RuntimeStatus)
    ensures
        status@ == match resource_dir {
            Ok(path) => stopped_status(Some(path@)),
            Err(reason) => StatusView {
                state: RunState::Error,
                active_preset_id: None,
                pid: None,
                last_error: Some(reason@),
                resource_path: None,
            },
        },
        status_coherent(status@),
{
    match resource_dir {
        Ok(path) => RuntimeStatus::stopped(Some(path)),
        Err(reason) => RuntimeStatus {
            state: RunState::Error,
            active_preset_id: None,
            pid: None,
            last_error: Some(reason),
            resource_path: None,
        },
    }
}

/// One line of output shown in the log panel.
pub struct LogEntry {
    pub timestamp: String,
    pub stream: String,
    pub message: String,
}

impl LogEntry {
    /// An entry for `message` on `stream`, stamped with the current time in
    /// milliseconds since the Unix epoch.
    pub fn new(stream: &str, message: String) -> (entry: LogEntry)
        ensures
            entry.stream@ == stream@,
            entry.message@ == message@,
            exists|millis: u128| entry.timestamp@ == decimal(millis as nat),
    {
        LogEntry { timestamp: timestamp_millis(), stream: String::from_str(stream), message }
    }
}

/// The event names on which the user interface listens.
pub struct LogStreamDescriptor {
    pub log_event: String,
    pub status_event: String,
}

/// The event names on which log entries and statuses are published.
pub fn stream_logs() -> (descriptor: LogStreamDescriptor)
    ensures
        descriptor.log_event@ == LOG_EVENT@,
        descriptor.status_event@ == STATUS_EVENT@,
{
    LogStreamDescriptor {
        log_event: String::from_str(LOG_EVENT),
        status_event: String::from_str(STATUS_EVENT),
    }
}

/// The line logged when the output of the child process can no longer be read.
pub fn log_read_failure_message(error: &str) -> (message: String)
    ensures
        message@ == "Log okunamadi: "@ + error@,
{
    prefixed("Log okunamadi: ", error)
}

} // verus!
