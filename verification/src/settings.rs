//! The user's persisted settings and the decisions taken from them.

use vstd::prelude::*;
use crate::presets::catalog;

verus! {

/// The settings kept on disk between runs of the launcher.
pub struct AppSettings {
    pub selected_preset: String,
    pub run_on_launch: bool,
    pub remember_last_preset: bool,
    pub language: String,
    pub auto_retry: bool,
    pub require_admin: bool,
    pub minimize_to_tray: bool,
}

/// The mathematical model of [`AppSettings`].
pub struct AppSettingsView {
    pub selected_preset: Seq<char>,
    pub run_on_launch: bool,
    pub remember_last_preset: bool,
    pub language: Seq<char>,
    pub auto_retry: bool,
    pub require_admin: bool,
    pub minimize_to_tray: bool,
}

impl View for AppSettings {
    type V = AppSettingsView;

    open spec fn view(&self) -> AppSettingsView {
        AppSettingsView {
            selected_preset: self.selected_preset@,
            run_on_launch: self.run_on_launch,
            remember_last_preset: self.remember_last_preset,
            language: self.language@,
            auto_retry: self.auto_retry,
            require_admin: self.require_admin,
            minimize_to_tray: self.minimize_to_tray,
        }
    }
}

/// The settings used when none are stored, or when the stored ones cannot be read.
pub open spec fn default_settings() -> AppSettingsView {
    AppSettingsView {
        selected_preset: "turkey-dnsredir"@,
        run_on_launch: false,
        remember_last_preset: true,
        language: "tr"@,
        auto_retry: false,
        require_admin: true,
        minimize_to_tray: true,
    }
}

impl Default for AppSettings {
    fn default() -> (settings: Self)
        ensures
            settings@ == default_settings(),
    {
        AppSettings {
            selected_preset: String::from_str("turkey-dnsredir"),
            run_on_launch: false,
            remember_last_preset: true,
            language: String::from_str("tr"),
            auto_retry: false,
            require_admin: true,
            minimize_to_tray: true,
        }
    }
}

/// The settings stored after a preset has been started: the started preset
/// becomes the selected one when the user asked to remember it.
pub open spec fn settings_after_start(settings: AppSettingsView, preset_id: Seq<char>) -> AppSettingsView {
    if settings.remember_last_preset {
        AppSettingsView { selected_preset: preset_id, ..settings }
    } else {
        settings
    }
}

impl AppSettings {
    /// These settings once `preset_id` has been started.
    pub fn after_start(self, preset_id: String) -> (updated: AppSettings)
        ensures
            updated@ == settings_after_start(self@, preset_id@),
            !self.remember_last_preset ==> updated@ == self@,
            updated.selected_preset@ == (if self.remember_last_preset { preset_id@ } else { self.selected_preset@ }),
            updated.run_on_launch == self.run_on_launch,
            updated.remember_last_preset == self.remember_last_preset,
            updated.language@ == self.language@,
            updated.auto_retry == self.auto_retry,
            updated.require_admin == self.require_admin,
            updated.minimize_to_tray == self.minimize_to_tray,
    {
        if self.remember_last_preset {
            AppSettings { selected_preset: preset_id, ..self }
        } else {
            self
        }
    }
}

/// What the launcher does with the window and the process when it starts.
pub struct LaunchPlan {
    /// Whether the logon task must exist (it is created or deleted to match).
    pub startup_task_enabled: bool,
    /// The preset to start right away, if any.
    pub start_preset: Option<String>,
    /// Whether the main window is hidden once the preset has been asked to start.
    pub hide_window: bool,
}

/// The decisions taken from the settings when the launcher starts: the logon
/// task follows `run_on_launch`; when it is set, the selected preset is
/// started and the window is hidden if the user minimises to the tray.
pub fn launch_plan(settings: &AppSettings) -> (plan: LaunchPlan)
    ensures
        plan.startup_task_enabled == settings.run_on_launch,
        plan.start_preset.deep_view() == (if settings.run_on_launch {
            Some(settings.selected_preset@)
        } else {
            None
        }),
        plan.hide_window == (settings.run_on_launch && settings.minimize_to_tray),
{
    if settings.run_on_launch {
        LaunchPlan {
            startup_task_enabled: true,
            start_preset: Some(settings.selected_preset.clone()),
            hide_window: settings.minimize_to_tray,
        }
    } else {
        LaunchPlan { startup_task_enabled: false, start_preset: None, hide_window: false }
    }
}

/// Whether closing the main window only hides it: as the stored settings say,
/// and yes when they cannot be read.
pub fn closes_to_tray(stored: Option<&AppSettings>) -> (hide: bool)
    ensures
        hide == match stored {
            Some(s) => s.minimize_to_tray,
            None => true,
        },
{
    match stored {
        Some(s) => s.minimize_to_tray,
        None => true,
    }
}

/// Starting a preset only ever touches the selected preset: when the user
/// does not ask to remember the last preset the stored settings are exactly
/// those read before the start; otherwise the started preset becomes the
/// selected one and every other setting is kept.
pub proof fn lemma_start_changes_only_selected_preset(settings: AppSettingsView, preset_id: Seq<char>)
    ensures
        !settings.remember_last_preset ==> settings_after_start(settings, preset_id) == settings,
        settings.remember_last_preset ==> settings_after_start(settings, preset_id).selected_preset == preset_id,
        settings_after_start(settings, preset_id).run_on_launch == settings.run_on_launch,
        settings_after_start(settings, preset_id).remember_last_preset == settings.remember_last_preset,
        settings_after_start(settings, preset_id).language == settings.language,
        settings_after_start(settings, preset_id).auto_retry == settings.auto_retry,
        settings_after_start(settings, preset_id).require_admin == settings.require_admin,
        settings_after_start(settings, preset_id).minimize_to_tray == settings.minimize_to_tray,
{
}

/// Starting twice in a row stores what the second start alone would store
/// on the settings after the first: the last started preset wins when it is
/// remembered, and nothing changes when it is not.
pub proof fn lemma_last_start_wins(settings: AppSettingsView, first: Seq<char>, second: Seq<char>)
    ensures
        settings_after_start(settings_after_start(settings, first), second).selected_preset
            == (if settings.remember_last_preset { second } else { settings.selected_preset }),
{
}

/// The preset selected by default is the first one of the catalog.
pub proof fn lemma_default_preset_in_catalog()
    ensures
        default_settings().selected_preset == catalog()[0].id,
{
}

} // verus!
