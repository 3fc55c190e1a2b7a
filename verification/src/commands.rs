//! The Windows commands the launcher runs around GoodbyeDPI: stopping the
//! WinDivert driver services, killing stray GoodbyeDPI processes and keeping
//! the logon task in step with the settings.

use vstd::prelude::*;
use crate::text::{prefixed, string_list, strs};

verus! {

/// The name of the scheduled task that starts the launcher at logon.
pub const STARTUP_TASK_NAME: &'static str = "GoodbyeDPITurkeyInterface";

/// A program to run and its arguments, run with no console window and with
/// its standard streams discarded.
pub struct CommandSpec {
    pub program: String,
    pub args: Vec<String>,
}

/// The mathematical model of a [`CommandSpec`].
pub struct CommandView {
    pub program: Seq<char>,
    pub args: Seq<Seq<char>>,
}

impl View for CommandSpec {
    type V = CommandView;

    open spec fn view(&self) -> CommandView {
        CommandView { program: self.program@, args: self.args.deep_view() }
    }
}

/// The view of each command of a list.
pub open spec fn commands_view(commands: Seq<CommandSpec>) -> Seq<CommandView> {
    commands.map_values(|c: CommandSpec| c@)
}

/// The command that stops the Windows service `name`.
pub open spec fn stop_service_command(name: Seq<char>) -> CommandView {
    CommandView { program: "sc"@, args: seq!["stop"@, name] }
}

/// The commands that unload the WinDivert driver: both of its service names
/// are stopped, the older one first.
pub open spec fn windivert_unload_commands() -> Seq<CommandView> {
    seq![stop_service_command("WinDivert"@), stop_service_command("WinDivert14"@)]
}

/// The command that force-kills every process named `goodbyedpi.exe`.
pub open spec fn kill_goodbyedpi_command() -> CommandView {
    CommandView { program: "taskkill"@, args: strs(seq!["/IM", "goodbyedpi.exe", "/F"]) }
}

/// The commands that clear what other GoodbyeDPI instances left behind: kill
/// them, then unload the driver.
pub open spec fn external_cleanup_commands() -> Seq<CommandView> {
    seq![kill_goodbyedpi_command()] + windivert_unload_commands()
}

/// The command that stops the Windows service `service_name`.
pub fn stop_windows_service(service_name: &str) -> (command: CommandSpec)
    ensures
        command@ == stop_service_command(service_name@),
{
    let words: &[&str] = &["stop", service_name];
    assert(words@ == seq!["stop", service_name]);
    let args = string_list(words);
    assert(args.deep_view() =~= seq!["stop"@, service_name@]);
    CommandSpec { program: String::from_str("sc"), args }
}

/// The commands that unload the WinDivert driver.
pub fn unload_windivert_driver() -> (commands: Vec<CommandSpec>)
    ensures
        commands_view(commands@) == windivert_unload_commands(),
{
    let mut commands: Vec<CommandSpec> = Vec::new();
    commands.push(stop_windows_service("WinDivert"));
    commands.push(stop_windows_service("WinDivert14"));
    assert(commands_view(commands@) =~= windivert_unload_commands());
    commands
}

/// The commands that stop other GoodbyeDPI instances and unload the driver.
pub fn stop_external_goodbyedpi_instances() -> (commands: Vec<CommandSpec>)
    ensures
        commands_view(commands@) == external_cleanup_commands(),
{
    let kill_args: &[&str] = &["/IM", "goodbyedpi.exe", "/F"];
    let mut commands: Vec<CommandSpec> = Vec::new();
    commands.push(CommandSpec { program: String::from_str("taskkill"), args: string_list(kill_args) });
    let mut unload = unload_windivert_driver();
    commands.append(&mut unload);
    assert(kill_args@ == seq!["/IM", "goodbyedpi.exe", "/F"]);
    assert(commands_view(commands@) =~= external_cleanup_commands());
    commands
}

/// The `schtasks` command that creates (when `enabled`) or deletes the logon
/// task; a created task runs `executable`, quoted, with the highest rights.
pub open spec fn startup_task_command(enabled: bool, executable: Seq<char>) -> CommandView {
    if enabled {
        CommandView {
            program: "schtasks"@,
            args: seq![
                "/Create"@,
                "/TN"@,
                STARTUP_TASK_NAME@,
                "/SC"@,
                "ONLOGON"@,
                "/RL"@,
                "HIGHEST"@,
                "/F"@,
                "/TR"@,
                "\""@ + executable + "\""@,
            ],
        }
    } else {
        CommandView {
            program: "schtasks"@,
            args: seq!["/Delete"@, "/TN"@, STARTUP_TASK_NAME@, "/F"@],
        }
    }
}

/// The command that makes the logon task match `enabled`, given the path of
/// the running executable or the reason it could not be found.
pub fn sync_windows_startup(enabled: bool, executable: Result<String, String>) -> (command: Result<CommandSpec, String>)
    ensures
        match executable {
            Ok(path) => command matches Ok(c) && c@ == startup_task_command(enabled, path@),
            Err(reason) => command matches Err(message)
                && message@ == "Uygulama yolu alinamadi: "@ + reason@,
        },
{
    match executable {
        Err(reason) => Err(prefixed("Uygulama yolu alinamadi: ", reason.as_str())),
        Ok(path) => {
            if enabled {
                let quoted = prefixed("\"", path.as_str()).concat("\"");
                let words: &[&str] = &["/Create", "/TN", STARTUP_TASK_NAME, "/SC", "ONLOGON", "/RL", "HIGHEST", "/F", "/TR"];
                assert(words@ == seq!["/Create", "/TN", STARTUP_TASK_NAME, "/SC", "ONLOGON", "/RL", "HIGHEST", "/F", "/TR"]);
                let mut args = string_list(words);
                assert(args.deep_view() =~= seq![
                    "/Create"@, "/TN"@, STARTUP_TASK_NAME@, "/SC"@, "ONLOGON"@, "/RL"@, "HIGHEST"@, "/F"@, "/TR"@,
                ]);
                args.push(quoted);
                assert(args.deep_view() =~= seq![
                    "/Create"@, "/TN"@, STARTUP_TASK_NAME@, "/SC"@, "ONLOGON"@, "/RL"@, "HIGHEST"@, "/F"@, "/TR"@,
                ].push(quoted@));
                let command = CommandSpec { program: String::from_str("schtasks"), args };
                assert(command@.args =~= startup_task_command(enabled, path@).args);
                Ok(command)
            } else {
                let words: &[&str] = &["/Delete", "/TN", STARTUP_TASK_NAME, "/F"];
                assert(words@ == seq!["/Delete", "/TN", STARTUP_TASK_NAME, "/F"]);
                let args = string_list(words);
                let command = CommandSpec { program: String::from_str("schtasks"), args };
                assert(command@.args =~= startup_task_command(enabled, path@).args);
                Ok(command)
            }
        },
    }
}

/// What came of running the logon-task command: `Ok` when it ran and
/// succeeded; otherwise an error naming the failed creation or removal,
/// with the reason when the command could not be run at all.
pub fn startup_task_result(enabled: bool, outcome: Result<bool, String>) -> (result: Result<(), String>)
    ensures
        match outcome {
            Ok(true) => result is Ok,
            Ok(false) => result matches Err(message) && message@ == (if enabled {
                "Windows acilis gorevi olusturulamadi."@
            } else {
                "Windows acilis gorevi kaldirilamadi."@
            }),
            Err(reason) => result matches Err(message) && message@ == (if enabled {
                "Windows acilis gorevi olusturulamadi: "@
            } else {
                "Windows acilis gorevi kaldirilamadi: "@
            }) + reason@,
        },
{
    match outcome {
        Ok(true) => Ok(()),
        Ok(false) => {
            if enabled {
                Err(String::from_str("Windows acilis gorevi olusturulamadi."))
            } else {
                Err(String::from_str("Windows acilis gorevi kaldirilamadi."))
            }
        },
        Err(reason) => {
            if enabled {
                Err(prefixed("Windows acilis gorevi olusturulamadi: ", reason.as_str()))
            } else {
                Err(prefixed("Windows acilis gorevi kaldirilamadi: ", reason.as_str()))
            }
        },
    }
}

} // verus!
