use goodbyedpi_interface::commands::{
    startup_task_result, stop_external_goodbyedpi_instances, stop_windows_service, sync_windows_startup,
    unload_windivert_driver, CommandSpec, STARTUP_TASK_NAME,
};
use goodbyedpi_interface::presets::{find_preset, list_presets, preset_catalog};
use goodbyedpi_interface::resources::{
    ensure_binary_layout, required_binary_files, resolve_resource_dir, ResourceSource,
};
use goodbyedpi_interface::runtime::{AppRuntime, ProcessPoll, WatchStep};
use goodbyedpi_interface::settings::{closes_to_tray, launch_plan, AppSettings};
use goodbyedpi_interface::start::{StartRequest, StartedProcess};
use goodbyedpi_interface::status::{
    initial_status, log_read_failure_message, stream_logs, LogEntry, RunState, RuntimeStatus, LOG_EVENT, STATUS_EVENT,
};
use goodbyedpi_interface::clock::{millis_stamp, timestamp_millis};
use goodbyedpi_interface::text::{decimal_string, join_strings};

fn strings(items: &[&str]) -> Vec<String> {
    items.iter().map(|s| s.to_string()).collect()
}

fn command(program: &str, args: &[&str]) -> (String, Vec<String>) {
    (program.to_string(), strings(args))
}

fn as_pair(c: &CommandSpec) -> (String, Vec<String>) {
    (c.program.clone(), c.args.clone())
}

fn started(rt: &mut AppRuntime, preset: &str, pid: u32, resource: &str) -> StartedProcess {
    let lookup = StartRequest::new(preset.to_string()).check_status(&rt.current_status()).unwrap();
    let located = lookup.select_preset(AppSettings::default()).unwrap();
    let check = located.with_resource_dir(Ok(resource.to_string())).unwrap();
    let ready = check.check_layout(format!("{resource}/bin"), [true, true, true]).unwrap();
    let started = ready.launched(Ok(pid)).unwrap();
    rt.commit_start(&started);
    started
}

#[test]
fn decimal_rendering_matches_to_string() {
    assert_eq!(decimal_string(0), "0");
    assert_eq!(decimal_string(7), "7");
    assert_eq!(decimal_string(10), "10");
    assert_eq!(decimal_string(1_700_000_000_123), "1700000000123");
    assert_eq!(decimal_string(u128::MAX), u128::MAX.to_string());
}

#[test]
fn timestamp_is_a_plausible_millisecond_count() {
    let stamp = timestamp_millis();
    let millis: u128 = stamp.parse().expect("decimal digits");
    assert_eq!(decimal_string(millis), stamp);
    assert!(millis > 1_600_000_000_000);
}

#[test]
fn join_puts_separator_between_neighbours() {
    assert_eq!(join_strings(&strings(&[]), ", "), "");
    assert_eq!(join_strings(&strings(&["a"]), ", "), "a");
    assert_eq!(join_strings(&strings(&["a", "b", "c"]), ", "), "a, b, c");
}

#[test]
fn catalog_lists_eight_presets_in_order() {
    let presets = preset_catalog();
    let ids: Vec<&str> = presets.iter().map(|p| p.id.as_str()).collect();
    assert_eq!(
        ids,
        vec![
            "turkey-dnsredir",
            "alt-superonline-1",
            "alt-superonline-2",
            "alt-superonline-3",
            "alt-superonline-4",
            "alt-superonline-5",
            "alt-superonline-6",
            "discord-only",
        ]
    );
    assert_eq!(presets[0].label, "Varsayılan");
    assert_eq!(presets[0].launch_mode, "cli-args");
    assert_eq!(
        presets[0].args,
        strings(&[
            "--blacklist", "..\\hosts.txt", "-5", "--set-ttl", "5", "--dns-addr", "77.88.8.8",
            "--dns-port", "1253", "--dnsv6-addr", "2a02:6b8::feed:0ff", "--dnsv6-port", "1253",
        ])
    );
    assert_eq!(presets[0].script_ref.as_deref(), Some("turkey_dnsredir.cmd"));
    assert_eq!(presets[2].args, strings(&["-5"]));
    assert_eq!(presets[6].args, strings(&["-9"]));
    assert_eq!(presets[7].label, "Sadece Discord");
    assert_eq!(
        presets[7].description,
        "Sadece Discord'a erişim sağlar. Diğer sitefler engellenir."
    );
    assert_eq!(list_presets().len(), 8);
}

#[test]
fn catalog_identifiers_are_distinct() {
    let presets = preset_catalog();
    for i in 0..presets.len() {
        for j in 0..presets.len() {
            if i != j {
                assert_ne!(presets[i].id, presets[j].id);
            }
        }
    }
}

#[test]
fn find_preset_by_identifier() {
    let found = find_preset(preset_catalog(), &"alt-superonline-3".to_string()).unwrap();
    assert_eq!(found.label, "Alternatif 3");
    assert_eq!(found.args.len(), 10);
    assert!(find_preset(preset_catalog(), &"missing".to_string()).is_none());
}

#[test]
fn default_settings_select_the_first_preset() {
    let settings = AppSettings::default();
    assert_eq!(settings.selected_preset, "turkey-dnsredir");
    assert_eq!(settings.selected_preset, preset_catalog()[0].id);
    assert!(!settings.run_on_launch);
    assert!(settings.remember_last_preset);
    assert_eq!(settings.language, "tr");
    assert!(!settings.auto_retry);
    assert!(settings.require_admin);
    assert!(settings.minimize_to_tray);
}

#[test]
fn started_preset_is_remembered_only_when_asked() {
    let remembered = AppSettings::default().after_start("discord-only".to_string());
    assert_eq!(remembered.selected_preset, "discord-only");
    let mut settings = AppSettings::default();
    settings.remember_last_preset = false;
    let kept = settings.after_start("discord-only".to_string());
    assert_eq!(kept.selected_preset, "turkey-dnsredir");
}

#[test]
fn launch_plan_follows_run_on_launch() {
    let plan = launch_plan(&AppSettings::default());
    assert!(!plan.startup_task_enabled);
    assert!(plan.start_preset.is_none());
    assert!(!plan.hide_window);

    let mut settings = AppSettings::default();
    settings.run_on_launch = true;
    settings.selected_preset = "alt-superonline-2".to_string();
    let plan = launch_plan(&settings);
    assert!(plan.startup_task_enabled);
    assert_eq!(plan.start_preset.as_deref(), Some("alt-superonline-2"));
    assert!(plan.hide_window);

    settings.minimize_to_tray = false;
    assert!(!launch_plan(&settings).hide_window);
}

#[test]
fn closing_hides_to_tray_unless_disabled() {
    assert!(closes_to_tray(None));
    let mut settings = AppSettings::default();
    assert!(closes_to_tray(Some(&settings)));
    settings.minimize_to_tray = false;
    assert!(!closes_to_tray(Some(&settings)));
}

#[test]
fn status_basics() {
    assert_eq!(RunState::Stopped.label(), "stopped");
    assert_eq!(RunState::Running.label(), "running");
    assert_eq!(RunState::Error.label(), "error");
    let stopped = RuntimeStatus::stopped(Some("C:\\res".to_string()));
    assert_eq!(stopped.state, RunState::Stopped);
    assert!(stopped.active_preset_id.is_none() && stopped.pid.is_none() && stopped.last_error.is_none());
    assert_eq!(stopped.resource_path.as_deref(), Some("C:\\res"));
    let copy = stopped.duplicate();
    assert_eq!(copy.resource_path.as_deref(), Some("C:\\res"));
}

#[test]
fn initial_status_reports_missing_resources() {
    let ok = initial_status(Ok("/res".to_string()));
    assert_eq!(ok.state, RunState::Stopped);
    assert_eq!(ok.resource_path.as_deref(), Some("/res"));
    let err = initial_status(Err("yok".to_string()));
    assert_eq!(err.state, RunState::Error);
    assert_eq!(err.last_error.as_deref(), Some("yok"));
    assert!(err.resource_path.is_none());
}

#[test]
fn log_entries_and_event_names() {
    let entry = LogEntry::new("system", "merhaba".to_string());
    assert_eq!(entry.stream, "system");
    assert_eq!(entry.message, "merhaba");
    assert!(entry.timestamp.parse::<u128>().is_ok());
    let descriptor = stream_logs();
    assert_eq!(descriptor.log_event, "goodbyedpi://log");
    assert_eq!(descriptor.status_event, "goodbyedpi://status");
    assert_eq!(LOG_EVENT, "goodbyedpi://log");
    assert_eq!(STATUS_EVENT, "goodbyedpi://status");
}

#[test]
fn driver_and_cleanup_commands() {
    assert_eq!(as_pair(&stop_windows_service("Foo")), command("sc", &["stop", "Foo"]));
    let unload: Vec<_> = unload_windivert_driver().iter().map(as_pair).collect();
    assert_eq!(
        unload,
        vec![command("sc", &["stop", "WinDivert"]), command("sc", &["stop", "WinDivert14"])]
    );
    let cleanup: Vec<_> = stop_external_goodbyedpi_instances().iter().map(as_pair).collect();
    assert_eq!(
        cleanup,
        vec![
            command("taskkill", &["/IM", "goodbyedpi.exe", "/F"]),
            command("sc", &["stop", "WinDivert"]),
            command("sc", &["stop", "WinDivert14"]),
        ]
    );
}

#[test]
fn startup_task_commands() {
    assert_eq!(STARTUP_TASK_NAME, "GoodbyeDPITurkeyInterface");
    let create = sync_windows_startup(true, Ok("C:\\App\\app.exe".to_string())).unwrap();
    assert_eq!(
        as_pair(&create),
        command(
            "schtasks",
            &[
                "/Create", "/TN", "GoodbyeDPITurkeyInterface", "/SC", "ONLOGON", "/RL", "HIGHEST", "/F", "/TR",
                "\"C:\\App\\app.exe\"",
            ]
        )
    );
    let delete = sync_windows_startup(false, Ok("C:\\App\\app.exe".to_string())).unwrap();
    assert_eq!(
        as_pair(&delete),
        command("schtasks", &["/Delete", "/TN", "GoodbyeDPITurkeyInterface", "/F"])
    );
    let err = sync_windows_startup(true, Err("erisim".to_string())).err().unwrap();
    assert_eq!(err, "Uygulama yolu alinamadi: erisim");
}

#[test]
fn startup_task_outcomes() {
    assert!(startup_task_result(true, Ok(true)).is_ok());
    assert!(startup_task_result(false, Ok(true)).is_ok());
    assert_eq!(startup_task_result(true, Ok(false)).unwrap_err(), "Windows acilis gorevi olusturulamadi.");
    assert_eq!(startup_task_result(false, Ok(false)).unwrap_err(), "Windows acilis gorevi kaldirilamadi.");
    assert_eq!(
        startup_task_result(true, Err("x".to_string())).unwrap_err(),
        "Windows acilis gorevi olusturulamadi: x"
    );
    assert_eq!(
        startup_task_result(false, Err("y".to_string())).unwrap_err(),
        "Windows acilis gorevi kaldirilamadi: y"
    );
}

#[test]
fn resource_directory_choice() {
    assert_eq!(resolve_resource_dir(true, None), Ok(ResourceSource::Bundled));
    assert_eq!(resolve_resource_dir(true, Some(false)), Ok(ResourceSource::Bundled));
    assert_eq!(resolve_resource_dir(false, Some(true)), Ok(ResourceSource::Development));
    assert_eq!(
        resolve_resource_dir(false, Some(false)),
        Err("GoodbyeDPI resource klasoru bulunamadi.".to_string())
    );
    assert_eq!(resolve_resource_dir(false, None), Err("Proje kok klasoru bulunamadi.".to_string()));
}

#[test]
fn binary_layout_lists_missing_files() {
    assert_eq!(required_binary_files(), strings(&["goodbyedpi.exe", "WinDivert.dll", "WinDivert64.sys"]));
    assert_eq!(ensure_binary_layout("/r/bin".to_string(), [true, true, true]), Ok("/r/bin".to_string()));
    assert_eq!(
        ensure_binary_layout("/r/bin".to_string(), [true, false, true]).unwrap_err(),
        "Paketlenmis GoodbyeDPI dosyalari eksik: WinDivert.dll. `npm run sync:upstream` ve release dosyalariyla `resources/goodbyedpi/bin` klasorunu doldurun."
    );
    assert_eq!(
        ensure_binary_layout("/r/bin".to_string(), [false, true, false]).unwrap_err(),
        "Paketlenmis GoodbyeDPI dosyalari eksik: goodbyedpi.exe, WinDivert64.sys. `npm run sync:upstream` ve release dosyalariyla `resources/goodbyedpi/bin` klasorunu doldurun."
    );
}

#[test]
fn new_runtime_is_stopped_without_process() {
    let rt = AppRuntime::new();
    assert!(!rt.has_process());
    let status = rt.current_status();
    assert_eq!(status.state, RunState::Stopped);
    assert!(status.resource_path.is_none());
}

#[test]
fn set_status_then_read_it_back() {
    let mut rt = AppRuntime::new();
    let published = rt.set_status(initial_status(Err("x".to_string())));
    assert_eq!(published.state, RunState::Error);
    let read = rt.current_status();
    assert_eq!(read.state, RunState::Error);
    assert_eq!(read.last_error.as_deref(), Some("x"));
}

#[test]
fn full_start_records_running_process() {
    let mut rt = AppRuntime::new();
    let lookup = StartRequest::new("discord-only".to_string()).check_status(&rt.current_status()).unwrap();
    let located = lookup.select_preset(AppSettings::default()).unwrap();
    let check = located.with_resource_dir(Ok("/res".to_string())).unwrap();
    let ready = check.check_layout("/res/bin".to_string(), [true, true, true]).unwrap();
    assert_eq!(ready.binary_dir(), "/res/bin");
    assert_eq!(
        ready.launch_args(),
        &strings(&["-1", "--blacklist", "..\\russia-blacklist.txt", "--blacklist", "..\\discord-custom.txt"])
    );
    let started = ready.launched(Ok(4242)).unwrap();
    assert_eq!(started.preset_id, "discord-only");
    assert_eq!(started.pid, 4242);
    assert_eq!(started.resource_path, "/res");
    assert_eq!(started.settings.selected_preset, "discord-only");
    assert_eq!(started.log_message, "Sadece Discord preset'i ile GoodbyeDPI baslatildi.");
    let status = rt.commit_start(&started);
    assert_eq!(status.state, RunState::Running);
    assert_eq!(status.pid, Some(4242));
    assert_eq!(status.active_preset_id.as_deref(), Some("discord-only"));
    assert_eq!(status.resource_path.as_deref(), Some("/res"));
    assert!(rt.has_process());
}

#[test]
fn second_start_is_refused_while_running() {
    let mut rt = AppRuntime::new();
    started(&mut rt, "turkey-dnsredir", 1, "/res");
    let update = rt.refresh_process_state(ProcessPoll::StillRunning);
    assert!(!update.changed);
    let refused = StartRequest::new("alt-superonline-1".to_string()).check_status(&update.status);
    assert_eq!(refused.err().unwrap(), "Ayni anda yalnizca tek GoodbyeDPI sureci calisabilir.");
}

#[test]
fn start_errors_are_reported() {
    let rt = AppRuntime::new();
    let lookup = StartRequest::new("nope".to_string()).check_status(&rt.current_status()).unwrap();
    assert_eq!(lookup.select_preset(AppSettings::default()).err().unwrap(), "Secilen preset bulunamadi.");

    let lookup = StartRequest::new("alt-superonline-2".to_string()).check_status(&rt.current_status()).unwrap();
    let located = lookup.select_preset(AppSettings::default()).unwrap();
    assert_eq!(located.with_resource_dir(Err("klasor yok".to_string())).err().unwrap(), "klasor yok");

    let lookup = StartRequest::new("alt-superonline-2".to_string()).check_status(&rt.current_status()).unwrap();
    let check = lookup.select_preset(AppSettings::default()).unwrap().with_resource_dir(Ok("/r".to_string())).unwrap();
    assert!(check.check_layout("/r/bin".to_string(), [false, true, true]).is_err());

    let lookup = StartRequest::new("alt-superonline-2".to_string()).check_status(&rt.current_status()).unwrap();
    let ready = lookup
        .select_preset(AppSettings::default())
        .unwrap()
        .with_resource_dir(Ok("/r".to_string()))
        .unwrap()
        .check_layout("/r/bin".to_string(), [true, true, true])
        .unwrap();
    assert_eq!(
        ready.launched(Err("erisim engellendi".to_string())).err().unwrap(),
        "GoodbyeDPI baslatilamadi: erisim engellendi. Yonetici izni ve WinDivert dosyalarini kontrol edin."
    );
}

#[test]
fn refresh_after_clean_exit_stops() {
    let mut rt = AppRuntime::new();
    started(&mut rt, "turkey-dnsredir", 7, "/res");
    let update = rt.refresh_process_state(ProcessPoll::Exited { success: true, description: "exit code: 0".to_string() });
    assert!(update.changed);
    assert_eq!(update.status.state, RunState::Stopped);
    assert!(update.status.active_preset_id.is_none());
    assert_eq!(update.status.resource_path.as_deref(), Some("/res"));
    assert!(!rt.has_process());
    let again = rt.refresh_process_state(ProcessPoll::Unreadable { error: "x".to_string() });
    assert!(!again.changed);
    assert_eq!(again.status.state, RunState::Stopped);
    assert!(StartRequest::new("turkey-dnsredir".to_string()).check_status(&again.status).is_ok());
}

#[test]
fn refresh_after_failed_exit_reports_error() {
    let mut rt = AppRuntime::new();
    started(&mut rt, "alt-superonline-4", 7, "/res");
    let update = rt.refresh_process_state(ProcessPoll::Exited { success: false, description: "exit code: 1".to_string() });
    assert_eq!(update.status.state, RunState::Error);
    assert_eq!(update.status.active_preset_id.as_deref(), Some("alt-superonline-4"));
    assert_eq!(update.status.last_error.as_deref(), Some("Surec beklenmedik sekilde sonlandi: exit code: 1"));
    assert!(update.status.pid.is_none());
}

#[test]
fn refresh_when_unreadable_reports_error() {
    let mut rt = AppRuntime::new();
    started(&mut rt, "alt-superonline-4", 7, "/res");
    let update = rt.refresh_process_state(ProcessPoll::Unreadable { error: "os error 5".to_string() });
    assert_eq!(update.status.state, RunState::Error);
    assert!(update.status.active_preset_id.is_none());
    assert_eq!(update.status.last_error.as_deref(), Some("Surec durumu okunamadi: os error 5"));
    assert!(!rt.has_process());
}

#[test]
fn watcher_steps() {
    let mut rt = AppRuntime::new();
    let watched = "alt-superonline-5".to_string();
    assert!(matches!(rt.watch_step(&watched, ProcessPoll::StillRunning), WatchStep::Stop));
    started(&mut rt, "alt-superonline-5", 9, "/res");
    assert!(rt.is_watching(&watched));
    assert!(!rt.is_watching(&"other".to_string()));
    assert!(matches!(rt.watch_step(&"other".to_string(), ProcessPoll::StillRunning), WatchStep::Stop));
    assert!(matches!(rt.watch_step(&watched, ProcessPoll::StillRunning), WatchStep::KeepWatching));
    match rt.watch_step(&watched, ProcessPoll::Exited { success: false, description: "exit code: 3".to_string() }) {
        WatchStep::Finished { log_message, status, unload_driver } => {
            assert_eq!(log_message, "GoodbyeDPI beklenmedik şekilde kapandı: exit code: 3");
            assert_eq!(status.state, RunState::Error);
            assert_eq!(status.active_preset_id.as_deref(), Some("alt-superonline-5"));
            assert_eq!(status.last_error.as_deref(), Some("Süreç beklenmedik şekilde sonlandı: exit code: 3"));
            assert!(unload_driver);
        }
        _ => panic!("expected the watcher to finish"),
    }
    assert!(!rt.has_process());
    assert!(matches!(rt.watch_step(&watched, ProcessPoll::StillRunning), WatchStep::Stop));
}

#[test]
fn watcher_clean_exit_and_failure() {
    let mut rt = AppRuntime::new();
    let watched = "turkey-dnsredir".to_string();
    started(&mut rt, "turkey-dnsredir", 9, "/res");
    match rt.watch_step(&watched, ProcessPoll::Exited { success: true, description: "exit code: 0".to_string() }) {
        WatchStep::Finished { log_message, status, unload_driver } => {
            assert_eq!(log_message, "GoodbyeDPI süreci sona erdi.");
            assert_eq!(status.state, RunState::Stopped);
            assert!(unload_driver);
        }
        _ => panic!("expected the watcher to finish"),
    }
    started(&mut rt, "turkey-dnsredir", 10, "/res");
    match rt.watch_step(&watched, ProcessPoll::Unreadable { error: "os error 6".to_string() }) {
        WatchStep::Finished { log_message, status, unload_driver } => {
            assert_eq!(log_message, "GoodbyeDPI süreç hatası: os error 6");
            assert_eq!(status.state, RunState::Error);
            assert_eq!(status.active_preset_id.as_deref(), Some("turkey-dnsredir"));
            assert_eq!(status.last_error.as_deref(), Some("Süreç durumu okunamadı: os error 6"));
            assert!(!unload_driver);
        }
        _ => panic!("expected the watcher to finish"),
    }
}

#[test]
fn stop_without_process() {
    let mut rt = AppRuntime::new();
    let report = rt.stop_goodbyedpi(Ok(()));
    assert_eq!(report.status.state, RunState::Stopped);
    assert!(report.status.resource_path.is_none());
    assert!(report.unload_driver);
    assert!(!report.child_released);
    assert!(report.log_message.is_none());
}

#[test]
fn stop_running_process() {
    let mut rt = AppRuntime::new();
    started(&mut rt, "turkey-dnsredir", 11, "/res");
    let report = rt.stop_goodbyedpi(Ok(()));
    assert_eq!(report.status.state, RunState::Stopped);
    assert_eq!(report.status.resource_path.as_deref(), Some("/res"));
    assert!(report.child_released && report.unload_driver);
    assert_eq!(report.log_message.as_deref(), Some("GoodbyeDPI süreci durduruldu."));
    assert!(!rt.has_process());
}

#[test]
fn stop_with_failed_kill_keeps_process() {
    let mut rt = AppRuntime::new();
    started(&mut rt, "turkey-dnsredir", 11, "/res");
    let report = rt.stop_goodbyedpi(Err("erisim reddedildi".to_string()));
    assert_eq!(report.status.state, RunState::Error);
    assert!(report.status.active_preset_id.is_none());
    assert_eq!(report.status.last_error.as_deref(), Some("Süreç durdurulamadı: erisim reddedildi"));
    assert_eq!(report.status.resource_path.as_deref(), Some("/res"));
    assert!(!report.child_released && !report.unload_driver);
    assert!(rt.has_process());
    assert!(rt.is_watching(&"turkey-dnsredir".to_string()));
}

#[test]
fn shutdown_forgets_process_keeps_status() {
    let mut rt = AppRuntime::new();
    assert!(!rt.shutdown_goodbyedpi());
    started(&mut rt, "turkey-dnsredir", 12, "/res");
    assert!(rt.shutdown_goodbyedpi());
    assert!(!rt.has_process());
    assert_eq!(rt.current_status().state, RunState::Running);
}

#[test]
fn millis_stamp_renders_count_or_zero_before_epoch() {
    assert_eq!(millis_stamp(Some(1999)), "1999");
    assert_eq!(millis_stamp(Some(0)), "0");
    assert_eq!(millis_stamp(None), "0");
}

#[test]
fn log_read_failure_line() {
    assert_eq!(log_read_failure_message("stream did not contain valid UTF-8"), "Log okunamadi: stream did not contain valid UTF-8");
}

#[test]
fn cleanup_runs_only_after_preset_is_found() {
    let rt = AppRuntime::new();
    let lookup = StartRequest::new("discord-only".to_string()).check_status(&rt.current_status()).unwrap();
    let located = lookup.select_preset(AppSettings::default()).unwrap();
    let cleanup: Vec<_> = located.cleanup_commands().iter().map(as_pair).collect();
    assert_eq!(
        cleanup,
        vec![
            command("taskkill", &["/IM", "goodbyedpi.exe", "/F"]),
            command("sc", &["stop", "WinDivert"]),
            command("sc", &["stop", "WinDivert14"]),
        ]
    );
}
