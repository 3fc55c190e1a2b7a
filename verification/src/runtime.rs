//! The state the launcher keeps about the GoodbyeDPI process it manages, and
//! how that state answers status polls, the watcher, stop and shutdown.
//!
//! The operating-system handle of the child process is held beside this
//! state by the caller; here the process is described by the preset it runs
//! and the resource directory it was started from.

use vstd::prelude::*;
use crate::status::{RunState, RuntimeStatus, StatusView, status_coherent, stopped_status};
use crate::text::prefixed;

verus! {

/// The process the launcher started and still manages.
pub struct ManagedProcess {
    pub active_preset_id: String,
    pub resource_path: String,
}

/// The mathematical model of a [`ManagedProcess`].
pub struct ProcessView {
    pub active_preset_id: Seq<char>,
    pub resource_path: Seq<char>,
}

impl View for ManagedProcess {
    type V = ProcessView;

    open spec fn view(&self) -> ProcessView {
        ProcessView { active_preset_id: self.active_preset_id@, resource_path: self.resource_path@ }
    }
}

/// The managed process, if any, and the status last published.
pub struct AppRuntime {
    pub process: Option<ManagedProcess>,
    pub status: RuntimeStatus,
}

/// The mathematical model of an [`AppRuntime`].
pub struct RuntimeView {
    pub process: Option<ProcessView>,
    pub status: StatusView,
}

impl View for AppRuntime {
    type V = RuntimeView;

    open spec fn view(&self) -> RuntimeView {
        RuntimeView {
            process: match self.process {
                Some(p) => Some(p@),
                None => None,
            },
            status: self.status@,
        }
    }
}

/// What polling the child process told: still running, exited (whether
/// successfully, and the exit status as text), or could not be read.
pub enum ProcessPoll {
    StillRunning,
    Exited { success: bool, description: String },
    Unreadable { error: String },
}

/// The mathematical model of a [`ProcessPoll`].
pub enum PollView {
    StillRunning,
    Exited { success: bool, description: Seq<char> },
    Unreadable { error: Seq<char> },
}

impl View for ProcessPoll {
    type V = PollView;

    open spec fn view(&self) -> PollView {
        match self {
            ProcessPoll::StillRunning => PollView::StillRunning,
            ProcessPoll::Exited { success, description } => PollView::Exited {
                success: *success,
                description: description@,
            },
            ProcessPoll::Unreadable { error } => PollView::Unreadable { error: error@ },
        }
    }
}

/// A status that says "running" always belongs to the managed process: it
/// names that process's preset and resource directory.
pub open spec fn runtime_wf(rt: RuntimeView) -> bool {
    rt.status.state == RunState::Running ==> (rt.process matches Some(p)
        && rt.status.active_preset_id == Some(p.active_preset_id)
        && rt.status.resource_path == Some(p.resource_path))
}

/// The status published when a status poll finds that the process exited:
/// stopped after a successful exit, otherwise an error that keeps the preset
/// and says how the process ended.
pub open spec fn exited_status(process: ProcessView, success: bool, description: Seq<char>) -> StatusView {
    if success {
        stopped_status(Some(process.resource_path))
    } else {
        StatusView {
            state: RunState::Error,
            active_preset_id: Some(process.active_preset_id),
            pid: None,
            last_error: Some("Surec beklenmedik sekilde sonlandi: "@ + description),
            resource_path: Some(process.resource_path),
        }
    }
}

/// The status published when a status poll cannot read the process state.
pub open spec fn unreadable_status(process: ProcessView, error: Seq<char>) -> StatusView {
    StatusView {
        state: RunState::Error,
        active_preset_id: None,
        pid: None,
        last_error: Some("Surec durumu okunamadi: "@ + error),
        resource_path: Some(process.resource_path),
    }
}

/// The state after a status poll: an ended or unreadable process is
/// forgotten and the matching status published; otherwise nothing changes.
pub open spec fn refreshed(rt: RuntimeView, poll: PollView) -> RuntimeView {
    match rt.process {
        None => rt,
        Some(p) => match poll {
            PollView::StillRunning => rt,
            PollView::Exited { success, description } => RuntimeView {
                process: None,
                status: exited_status(p, success, description),
            },
            PollView::Unreadable { error } => RuntimeView {
                process: None,
                status: unreadable_status(p, error),
            },
        },
    }
}

/// The status after a poll, and whether it changed and must be published.
pub struct StatusUpdate {
    pub status: RuntimeStatus,
    pub changed: bool,
}

/// What the watcher does after one look at the process.
pub enum WatchStep {
    /// The process is gone or runs another preset: this watcher ends.
    Stop,
    /// The process still runs: look again later.
    KeepWatching,
    /// The process ended: log, publish the status, unload the driver if
    /// asked, and end.
    Finished { log_message: String, status: RuntimeStatus, unload_driver: bool },
}

/// The status the watcher publishes when the watched process exited.
pub open spec fn watched_exit_status(process: ProcessView, watched: Seq<char>, success: bool, description: Seq<char>) -> StatusView {
    if success {
        stopped_status(Some(process.resource_path))
    } else {
        StatusView {
            state: RunState::Error,
            active_preset_id: Some(watched),
            pid: None,
            last_error: Some("Süreç beklenmedik şekilde sonlandı: "@ + description),
            resource_path: Some(process.resource_path),
        }
    }
}

/// The log line the watcher writes when the watched process exited.
pub open spec fn watched_exit_log(success: bool, description: Seq<char>) -> Seq<char> {
    if success {
        "GoodbyeDPI süreci sona erdi."@
    } else {
        "GoodbyeDPI beklenmedik şekilde kapandı: "@ + description
    }
}

/// The status the watcher publishes when the watched process cannot be read.
pub open spec fn watched_failure_status(process: ProcessView, watched: Seq<char>, error: Seq<char>) -> StatusView {
    StatusView {
        state: RunState::Error,
        active_preset_id: Some(watched),
        pid: None,
        last_error: Some("Süreç durumu okunamadı: "@ + error),
        resource_path: Some(process.resource_path),
    }
}

/// Whether the watcher of `watched` still has a process to look at.
pub open spec fn is_watched(rt: RuntimeView, watched: Seq<char>) -> bool {
    rt.process matches Some(p) && p.active_preset_id == watched
}

/// What a stop request did.
pub struct StopReport {
    /// The status to publish.
    pub status: RuntimeStatus,
    /// Whether the child was killed and can be reaped and dropped.
    pub child_released: bool,
    /// Whether the WinDivert driver must be unloaded.
    pub unload_driver: bool,
    /// The line to log, if any.
    pub log_message: Option<String>,
}

/// The status published when the managed process could not be killed.
pub open spec fn kill_failed_status(process: ProcessView, error: Seq<char>) -> StatusView {
    StatusView {
        state: RunState::Error,
        active_preset_id: None,
        pid: None,
        last_error: Some("Süreç durdurulamadı: "@ + error),
        resource_path: Some(process.resource_path),
    }
}

impl AppRuntime {
    /// No process, and a stopped status that knows no resource directory.
    pub fn new() -> (rt: Self)
        ensures
            rt@ == (RuntimeView { process: None, status: stopped_status(None) }),
            runtime_wf(rt@),
            status_coherent(rt.status@),
    {
        AppRuntime { process: None, status: RuntimeStatus::stopped(None) }
    }

    /// Whether a process is managed.
    pub fn has_process(&self) -> (managed: bool)
        ensures
            managed == (self.process is Some),
    {
        self.process.is_some()
    }

    /// A copy of the status last published.
    pub fn current_status(&self) -> (status: RuntimeStatus)
        ensures
            status == self.status,
    {
        self.status.duplicate()
    }

    /// Records `status` as the status last published and returns it.
    pub fn set_status(&mut self, status: RuntimeStatus) -> (published: RuntimeStatus)
        ensures
            final(self).process == old(self).process,
            final(self).status == status,
            published == status,
    {
        self.status = status.duplicate();
        status
    }

    /// Answers a status request: `poll` is what polling the child told, and
    /// it is only heeded while a process is managed. An exited or unreadable
    /// process is forgotten and the new status published.
    pub fn refresh_process_state(&mut self, poll: ProcessPoll) -> (update: StatusUpdate)
        ensures
            final(self)@ == refreshed(old(self)@, poll@),
            update.status == final(self).status,
            update.changed == (old(self).process is Some && !(poll is StillRunning)),
            old(self).process is None || poll is StillRunning ==> *final(self) == *old(self),
            runtime_wf(old(self)@) ==> runtime_wf(final(self)@),
            update.changed ==> status_coherent(final(self).status@),
            status_coherent(old(self).status@) ==> status_coherent(final(self).status@),
            update.changed ==> (final(self).status.last_error is Some <==> !(poll matches ProcessPoll::Exited { success: true, .. })),
    {
        let process = match &self.process {
            None => {
                return StatusUpdate { status: self.current_status(), changed: false };
            },
            Some(p) => p,
        };
        let next = match poll {
            ProcessPoll::StillRunning => {
                return StatusUpdate { status: self.current_status(), changed: false };
            },
            ProcessPoll::Exited { success, description } => {
                if success {
                    RuntimeStatus::stopped(Some(process.resource_path.clone()))
                } else {
                    RuntimeStatus {
                        state: RunState::Error,
                        active_preset_id: Some(process.active_preset_id.clone()),
                        pid: None,
                        last_error: Some(prefixed("Surec beklenmedik sekilde sonlandi: ", description.as_str())),
                        resource_path: Some(process.resource_path.clone()),
                    }
                }
            },
            ProcessPoll::Unreadable { error } => RuntimeStatus {
                state: RunState::Error,
                active_preset_id: None,
                pid: None,
                last_error: Some(prefixed("Surec durumu okunamadi: ", error.as_str())),
                resource_path: Some(process.resource_path.clone()),
            },
        };
        self.process = None;
        let status = self.set_status(next);
        StatusUpdate { status, changed: true }
    }

    /// Whether the watcher of `watched` still has a process to look at: one
    /// is managed and it runs that preset.
    pub fn is_watching(&self, watched: &String) -> (watching: bool)
        ensures
            watching == is_watched(self@, watched@),
    {
        match &self.process {
            Some(p) => p.active_preset_id == *watched,
            None => false,
        }
    }

    /// One step of the watcher of preset `watched`, with `poll` what polling
    /// the child told (only heeded while the watched process is managed).
    /// A process that ended or cannot be read is forgotten; the step then
    /// says what to log and publish.
    pub fn watch_step(&mut self, watched: &String, poll: ProcessPoll) -> (step: WatchStep)
        ensures
            !is_watched(old(self)@, watched@) ==> step is Stop && *final(self) == *old(self),
            is_watched(old(self)@, watched@) ==> match (old(self)@.process, poll@) {
                (Some(p), PollView::StillRunning) => step is KeepWatching && *final(self) == *old(self),
                (Some(p), PollView::Exited { success, description }) => {
                    &&& final(self)@ == (RuntimeView {
                        process: None,
                        status: watched_exit_status(p, watched@, success, description),
                    })
                    &&& step matches WatchStep::Finished { log_message, status, unload_driver }
                    &&& log_message@ == watched_exit_log(success, description)
                    &&& status == final(self).status
                    &&& unload_driver
                },
                (Some(p), PollView::Unreadable { error }) => {
                    &&& final(self)@ == (RuntimeView {
                        process: None,
                        status: watched_failure_status(p, watched@, error),
                    })
                    &&& step matches WatchStep::Finished { log_message, status, unload_driver }
                    &&& log_message@ == "GoodbyeDPI süreç hatası: "@ + error
                    &&& status == final(self).status
                    &&& !unload_driver
                },
                _ => false,
            },
            runtime_wf(old(self)@) ==> runtime_wf(final(self)@),
            step is Finished ==> status_coherent(final(self).status@),
            status_coherent(old(self).status@) ==> status_coherent(final(self).status@),
    {
        if !self.is_watching(watched) {
            return WatchStep::Stop;
        }
        let resource_path = match &self.process {
            Some(p) => p.resource_path.clone(),
            None => {
                return WatchStep::Stop;
            },
        };
        match poll {
            ProcessPoll::StillRunning => WatchStep::KeepWatching,
            ProcessPoll::Exited { success, description } => {
                self.process = None;
                let (log_message, next) = if success {
                    (String::from_str("GoodbyeDPI süreci sona erdi."), RuntimeStatus::stopped(Some(resource_path)))
                } else {
                    (
                        prefixed("GoodbyeDPI beklenmedik şekilde kapandı: ", description.as_str()),
                        RuntimeStatus {
                            state: RunState::Error,
                            active_preset_id: Some(watched.clone()),
                            pid: None,
                            last_error: Some(prefixed("Süreç beklenmedik şekilde sonlandı: ", description.as_str())),
                            resource_path: Some(resource_path),
                        },
                    )
                };
                let status = self.set_status(next);
                WatchStep::Finished { log_message, status, unload_driver: true }
            },
            ProcessPoll::Unreadable { error } => {
                self.process = None;
                let log_message = prefixed("GoodbyeDPI süreç hatası: ", error.as_str());
                let status = self.set_status(RuntimeStatus {
                    state: RunState::Error,
                    active_preset_id: Some(watched.clone()),
                    pid: None,
                    last_error: Some(prefixed("Süreç durumu okunamadı: ", error.as_str())),
                    resource_path: Some(resource_path),
                });
                WatchStep::Finished { log_message, status, unload_driver: false }
            },
        }
    }

    /// Stops the managed process; `kill` is what killing the child gave and is
    /// only heeded while a process is managed. A process that could not be
    /// killed stays managed and the error is published; otherwise the
    /// process is forgotten, the driver unloaded and a stopped status
    /// published.
    pub fn stop_goodbyedpi(&mut self, kill: Result<(), String>) -> (report: StopReport)
        ensures
            report.status == final(self).status,
            match old(self)@.process {
                None => {
                    &&& final(self)@ == (RuntimeView { process: None, status: stopped_status(None) })
                    &&& !report.child_released
                    &&& report.unload_driver
                    &&& report.log_message is None
                },
                Some(p) => match kill {
                    Err(error) => {
                        &&& final(self).process == old(self).process
                        &&& final(self).status@ == kill_failed_status(p, error@)
                        &&& !report.child_released
                        &&& !report.unload_driver
                        &&& report.log_message is None
                    },
                    Ok(_) => {
                        &&& final(self)@ == (RuntimeView { process: None, status: stopped_status(Some(p.resource_path)) })
                        &&& report.child_released
                        &&& report.unload_driver
                        &&& report.log_message matches Some(m) && m@ == "GoodbyeDPI süreci durduruldu."@
                    },
                },
            },
            final(self).status.state != RunState::Running,
            runtime_wf(final(self)@),
            status_coherent(final(self).status@),
    {
        let resource_path = match &self.process {
            None => {
                let status = self.set_status(RuntimeStatus::stopped(None));
                return StopReport { status, child_released: false, unload_driver: true, log_message: None };
            },
            Some(p) => p.resource_path.clone(),
        };
        match kill {
            Err(error) => {
                let status = self.set_status(RuntimeStatus {
                    state: RunState::Error,
                    active_preset_id: None,
                    pid: None,
                    last_error: Some(prefixed("Süreç durdurulamadı: ", error.as_str())),
                    resource_path: Some(resource_path),
                });
                StopReport { status, child_released: false, unload_driver: false, log_message: None }
            },
            Ok(()) => {
                self.process = None;
                let status = self.set_status(RuntimeStatus::stopped(Some(resource_path)));
                StopReport {
                    status,
                    child_released: true,
                    unload_driver: true,
                    log_message: Some(String::from_str("GoodbyeDPI süreci durduruldu.")),
                }
            },
        }
    }

    /// Forgets the managed process when the launcher exits, leaving the
    /// status as it was; tells whether there was one to kill.
    pub fn shutdown_goodbyedpi(&mut self) -> (had_process: bool)
        ensures
            had_process == (old(self).process is Some),
            final(self).process is None,
            final(self).status == old(self).status,
    {
        let had_process = self.process.is_some();
        self.process = None;
        had_process
    }
}

/// A status poll that saw the process end settles the state: any later poll
/// changes nothing until another process is started.
pub proof fn lemma_refresh_settles(rt: RuntimeView, first: PollView, later: PollView)
    requires
        !(first is StillRunning),
    ensures
        refreshed(rt, first).process is None,
        refreshed(refreshed(rt, first), later) == refreshed(rt, first),
{
}

/// After a status poll that saw the process end, the status no longer says
/// that it runs.
pub proof fn lemma_ended_process_not_running(rt: RuntimeView, poll: PollView)
    requires
        rt.process is Some,
        !(poll is StillRunning),
    ensures
        refreshed(rt, poll).status.state != RunState::Running,
{
}

/// A status poll on a managed process publishes an error exactly when the
/// process failed or could not be read; a clean exit publishes the plain
/// stopped status of its resource directory, with no preset, process id or
/// error. Every status a poll publishes is coherent.
pub proof fn lemma_poll_outcomes(rt: RuntimeView, poll: PollView)
    requires
        rt.process is Some,
        !(poll is StillRunning),
    ensures
        status_coherent(refreshed(rt, poll).status),
        refreshed(rt, poll).status.last_error is Some
            <==> !(poll matches PollView::Exited { success: true, .. }),
        poll matches PollView::Exited { success: true, .. } ==> {
            &&& refreshed(rt, poll).status.state == RunState::Stopped
            &&& refreshed(rt, poll).status.active_preset_id is None
            &&& refreshed(rt, poll).status.last_error is None
            &&& refreshed(rt, poll).status.resource_path == Some(rt.process->0.resource_path)
        },
        poll matches PollView::Exited { success: false, .. } ==> {
            &&& refreshed(rt, poll).status.state == RunState::Error
            &&& refreshed(rt, poll).status.active_preset_id == Some(rt.process->0.active_preset_id)
        },
        poll is Unreadable ==> {
            &&& refreshed(rt, poll).status.state == RunState::Error
            &&& refreshed(rt, poll).status.active_preset_id is None
        },
{
}

/// When the watcher sees the process end it publishes an error exactly when
/// the exit was not clean; a clean exit gives the plain stopped status of the
/// resource directory, naming no preset. Every status it publishes is coherent.
pub proof fn lemma_watch_outcomes(process: ProcessView, watched: Seq<char>, success: bool, text: Seq<char>)
    ensures
        status_coherent(watched_exit_status(process, watched, success, text)),
        status_coherent(watched_failure_status(process, watched, text)),
        success ==> watched_exit_status(process, watched, success, text) == stopped_status(Some(process.resource_path)),
        success ==> watched_exit_status(process, watched, success, text).active_preset_id is None,
        watched_exit_status(process, watched, success, text).last_error is Some <==> !success,
        !success ==> watched_exit_status(process, watched, success, text).active_preset_id == Some(watched),
        watched_failure_status(process, watched, text).state == RunState::Error,
        watched_failure_status(process, watched, text).active_preset_id == Some(watched),
{
}

/// A stop whose kill failed publishes a coherent error status that keeps the
/// resource directory.
pub proof fn lemma_kill_failure_outcome(process: ProcessView, error: Seq<char>)
    ensures
        status_coherent(kill_failed_status(process, error)),
        kill_failed_status(process, error).state == RunState::Error,
        kill_failed_status(process, error).resource_path == Some(process.resource_path),
{
}

} // verus!
