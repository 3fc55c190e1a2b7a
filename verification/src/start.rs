//! Starting a preset. The start goes through fixed stages, each a type of
//! its own: the status is checked, the preset looked up, the resources
//! located, the binaries checked, the process spawned, and finally the
//! runtime state records it. The caller performs the outside work between
//! stages (polling, reading settings, stopping stray instances, looking at
//! the disk, spawning) and hands each result to the next stage.

use vstd::prelude::*;
use crate::commands::{CommandSpec, commands_view, external_cleanup_commands, stop_external_goodbyedpi_instances};
use crate::presets::{Preset, PresetView, catalog, find_preset, preset_catalog};
use crate::resources::{ensure_binary_layout, missing_binaries_message, missing_names, required_binaries};
use crate::runtime::{AppRuntime, ManagedProcess, PollView, ProcessView, RuntimeView, refreshed, runtime_wf};
use crate::settings::{AppSettings, AppSettingsView, settings_after_start};
use crate::status::{RunState, RuntimeStatus, StatusView, status_coherent};
use crate::text::prefixed;

verus! {

/// The refusal given while a process runs: only one may run at a time.
pub open spec fn already_running_message() -> Seq<char> {
    "Ayni anda yalnizca tek GoodbyeDPI sureci calisabilir."@
}

/// The refusal given for an identifier that names no preset.
pub open spec fn unknown_preset_message() -> Seq<char> {
    "Secilen preset bulunamadi."@
}

/// The error given when the process could not be spawned.
pub open spec fn spawn_failed_message(error: Seq<char>) -> Seq<char> {
    "GoodbyeDPI baslatilamadi: "@ + error + ". Yonetici izni ve WinDivert dosyalarini kontrol edin."@
}

/// The line logged once a preset has been started.
pub open spec fn started_log_message(label: Seq<char>) -> Seq<char> {
    label + " preset'i ile GoodbyeDPI baslatildi."@
}

/// A request to start the preset with the given identifier.
pub struct StartRequest {
    preset_id: String,
}

impl View for StartRequest {
    type V = Seq<char>;

    closed spec fn view(&self) -> Seq<char> {
        self.preset_id@
    }
}

/// A start whose status check passed, waiting for the stored settings.
pub struct PresetLookup {
    preset_id: String,
}

impl View for PresetLookup {
    type V = Seq<char>;

    closed spec fn view(&self) -> Seq<char> {
        self.preset_id@
    }
}

/// The preset to start and the settings read for it.
pub struct PlanView {
    pub preset: PresetView,
    pub settings: AppSettingsView,
}

/// A start whose preset is known, waiting for the resource directory.
pub struct ResourceLookup {
    preset: Preset,
    settings: AppSettings,
}

impl View for ResourceLookup {
    type V = PlanView;

    closed spec fn view(&self) -> PlanView {
        PlanView { preset: self.preset@, settings: self.settings@ }
    }
}

/// A start whose resource directory is known, waiting for the check of the
/// binaries.
pub struct LayoutCheck {
    preset: Preset,
    settings: AppSettings,
    resource_path: String,
}

/// The plan and the resource directory.
pub struct LocatedView {
    pub plan: PlanView,
    pub resource_path: Seq<char>,
}

impl View for LayoutCheck {
    type V = LocatedView;

    closed spec fn view(&self) -> LocatedView {
        LocatedView {
            plan: PlanView { preset: self.preset@, settings: self.settings@ },
            resource_path: self.resource_path@,
        }
    }
}

/// A start ready to spawn the process.
pub struct ReadyToLaunch {
    preset: Preset,
    settings: AppSettings,
    resource_path: String,
    binary_dir: String,
}

/// The plan, the resource directory and the binary directory.
pub struct LaunchView {
    pub plan: PlanView,
    pub resource_path: Seq<char>,
    pub binary_dir: Seq<char>,
}

impl View for ReadyToLaunch {
    type V = LaunchView;

    closed spec fn view(&self) -> LaunchView {
        LaunchView {
            plan: PlanView { preset: self.preset@, settings: self.settings@ },
            resource_path: self.resource_path@,
            binary_dir: self.binary_dir@,
        }
    }
}

/// A process that has been spawned: what to record, store and log.
pub struct StartedProcess {
    pub preset_id: String,
    pub pid: u32,
    pub resource_path: String,
    /// The settings to store now that the preset has been started.
    pub settings: AppSettings,
    pub log_message: String,
}

impl StartRequest {
    /// A request to start `preset_id`.
    pub fn new(preset_id: String) -> (request: StartRequest)
        ensures
            request@ == preset_id@,
    {
        StartRequest { preset_id }
    }

    /// Checks the freshly polled status: a start is refused while a process runs.
    pub fn check_status(self, status: &RuntimeStatus) -> (next: Result<PresetLookup, String>)
        ensures
            status.state == RunState::Running ==> (next matches Err(m) && m@ == already_running_message()),
            status.state != RunState::Running ==> (next matches Ok(lookup) && lookup@ == self@),
    {
        if status.state == RunState::Running {
            Err(String::from_str("Ayni anda yalnizca tek GoodbyeDPI sureci calisabilir."))
        } else {
            Ok(PresetLookup { preset_id: self.preset_id })
        }
    }
}

impl PresetLookup {
    /// Looks the requested identifier up in the catalog, with `settings` the
    /// stored settings (the defaults when they cannot be read).
    pub fn select_preset(self, settings: AppSettings) -> (next: Result<ResourceLookup, String>)
        ensures
            (exists|i: int| 0 <= i < catalog().len() && #[trigger] catalog()[i].id == self@) ==> (next matches Ok(lookup)
                && lookup@.preset.id == self@
                && (exists|i: int| 0 <= i < catalog().len() && lookup@.preset == #[trigger] catalog()[i])
                && lookup@.settings == settings@),
            (forall|i: int| 0 <= i < catalog().len() ==> #[trigger] catalog()[i].id != self@) ==> (next matches Err(m)
                && m@ == unknown_preset_message()),
    {
        let presets = preset_catalog();
        let ghost all = presets@;
        match find_preset(presets, &self.preset_id) {
            Some(preset) => {
                proof {
                    let i = choose|i: int| 0 <= i < all.len() && preset == all[i] && all[i].id@ == self@;
                    assert(catalog()[i] == all[i]@);
                }
                Ok(ResourceLookup { preset, settings })
            },
            None => {
                proof {
                    assert forall|i: int| 0 <= i < catalog().len() implies #[trigger] catalog()[i].id != self@ by {
                        assert(catalog()[i] == all[i]@);
                    }
                }
                Err(String::from_str("Secilen preset bulunamadi."))
            },
        }
    }
}

impl ResourceLookup {
    /// The commands run once the preset is known and before the resources
    /// are looked up: stray GoodbyeDPI instances are killed and the driver
    /// unloaded. A start refused earlier never reaches this stage.
    pub fn cleanup_commands(&self) -> (commands: Vec<CommandSpec>)
        ensures
            commands_view(commands@) == external_cleanup_commands(),
    {
        stop_external_goodbyedpi_instances()
    }

    /// Continues with the resource directory (its path as text), or stops
    /// with the reason it could not be found.
    pub fn with_resource_dir(self, resource_dir: Result<String, String>) -> (next: Result<LayoutCheck, String>)
        ensures
            match resource_dir {
                Ok(path) => next matches Ok(check) && check@ == (LocatedView { plan: self@, resource_path: path@ }),
                Err(reason) => next == Err::<LayoutCheck, String>(reason),
            },
    {
        match resource_dir {
            Ok(resource_path) => Ok(LayoutCheck { preset: self.preset, settings: self.settings, resource_path }),
            Err(reason) => Err(reason),
        }
    }
}

impl LayoutCheck {
    /// Continues once the binary directory holds every required file;
    /// `present[i]` tells whether the `i`-th of them exists in `binary_dir`.
    pub fn check_layout(self, binary_dir: String, present: [bool; 3]) -> (next: Result<ReadyToLaunch, String>)
        ensures
            missing_names(required_binaries(), present@).len() == 0 ==> (next matches Ok(ready)
                && ready@ == (LaunchView { plan: self@.plan, resource_path: self@.resource_path, binary_dir: binary_dir@ })),
            missing_names(required_binaries(), present@).len() > 0 ==> (next matches Err(m)
                && m@ == missing_binaries_message(missing_names(required_binaries(), present@))),
    {
        match ensure_binary_layout(binary_dir, present) {
            Ok(binary_dir) => Ok(ReadyToLaunch {
                preset: self.preset,
                settings: self.settings,
                resource_path: self.resource_path,
                binary_dir,
            }),
            Err(message) => Err(message),
        }
    }
}

impl ReadyToLaunch {
    /// The arguments GoodbyeDPI is run with: the preset's.
    pub fn launch_args(&self) -> (args: &Vec<String>)
        ensures
            args.deep_view() == self@.plan.preset.args,
    {
        &self.preset.args
    }

    /// The directory the process runs in, which holds the executable.
    pub fn binary_dir(&self) -> (dir: &String)
        ensures
            dir@ == self@.binary_dir,
    {
        &self.binary_dir
    }

    /// Continues with what spawning gave: the process id, or the error.
    pub fn launched(self, spawned: Result<u32, String>) -> (next: Result<StartedProcess, String>)
        ensures
            match spawned {
                Ok(pid) => next matches Ok(started)
                    && started.preset_id@ == self@.plan.preset.id
                    && started.pid == pid
                    && started.resource_path@ == self@.resource_path
                    && started.settings@ == settings_after_start(self@.plan.settings, self@.plan.preset.id)
                    && started.log_message@ == started_log_message(self@.plan.preset.label),
                Err(error) => next matches Err(m) && m@ == spawn_failed_message(error@),
            },
    {
        match spawned {
            Err(error) => Err(
                prefixed("GoodbyeDPI baslatilamadi: ", error.as_str()).concat(
                    ". Yonetici izni ve WinDivert dosyalarini kontrol edin.",
                ),
            ),
            Ok(pid) => {
                let log_message = self.preset.label.clone().concat(" preset'i ile GoodbyeDPI baslatildi.");
                let settings = self.settings.after_start(self.preset.id.clone());
                Ok(StartedProcess {
                    preset_id: self.preset.id,
                    pid,
                    resource_path: self.resource_path,
                    settings,
                    log_message,
                })
            },
        }
    }
}

/// The status published once a process has been started.
pub open spec fn running_status(preset_id: Seq<char>, pid: u32, resource_path: Seq<char>) -> StatusView {
    StatusView {
        state: RunState::Running,
        active_preset_id: Some(preset_id),
        pid: Some(pid),
        last_error: None,
        resource_path: Some(resource_path),
    }
}

impl AppRuntime {
    /// Records the started process as the managed one and publishes that it
    /// runs. A process recorded before is forgotten.
    pub fn commit_start(&mut self, started: &StartedProcess) -> (status: RuntimeStatus)
        ensures
            final(self)@ == (RuntimeView {
                process: Some(ProcessView {
                    active_preset_id: started.preset_id@,
                    resource_path: started.resource_path@,
                }),
                status: running_status(started.preset_id@, started.pid, started.resource_path@),
            }),
            status == final(self).status,
            runtime_wf(final(self)@),
            status_coherent(final(self).status@),
    {
        self.process = Some(ManagedProcess {
            active_preset_id: started.preset_id.clone(),
            resource_path: started.resource_path.clone(),
        });
        self.set_status(RuntimeStatus {
            state: RunState::Running,
            active_preset_id: Some(started.preset_id.clone()),
            pid: Some(started.pid),
            last_error: None,
            resource_path: Some(started.resource_path.clone()),
        })
    }
}

/// Once a preset has been started, every further start is refused for as
/// long as status polls find the process running; a poll that finds it ended
/// lets the next start through the status check.
pub proof fn lemma_one_process_at_a_time(preset_id: Seq<char>, pid: u32, resource_path: Seq<char>, poll: PollView)
    ensures
        ({
            let started = RuntimeView {
                process: Some(ProcessView { active_preset_id: preset_id, resource_path }),
                status: running_status(preset_id, pid, resource_path),
            };
            &&& runtime_wf(started)
            &&& (poll is StillRunning ==> refreshed(started, poll).status.state == RunState::Running)
            &&& (!(poll is StillRunning) ==> refreshed(started, poll).status.state != RunState::Running)
        }),
{
}

} // verus!
