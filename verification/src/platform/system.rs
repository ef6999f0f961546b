//! System services: the systemd unit a Linux service installs, the
//! `systemctl` commands its operations run and how their failures are
//! reported, and the services of macOS and Windows, which do nothing yet.

use vstd::prelude::*;
use crate::platform::{PlatformError, PlatformResult};
use crate::text::{append_str, join_spec, join_strings, string_from, views};

verus! {

/// What a system service runs.
#[derive(Debug, Clone)]
pub struct ServiceConfig {
    pub service_name: String,
    pub display_name: String,
    pub description: String,
    pub executable_path: String,
    pub working_directory: String,
    pub arguments: Vec<String>,
    pub auto_start: bool,
    pub run_as_user: Option<String>,
}

/// The status of a system service.
#[derive(Debug, Clone)]
pub struct ServiceStatus {
    pub is_installed: bool,
    pub is_running: bool,
    pub is_auto_start_enabled: bool,
    pub pid: Option<u32>,
    pub status_message: String,
}

/// The name the Linux service operations act on.
pub const LINUX_SERVICE_NAME: &'static str = "soft-kvm";

/// The user a service runs as: the configured one, else `root`.
pub open spec fn run_as_user_text(config: ServiceConfig) -> Seq<char> {
    match config.run_as_user {
        Some(u) => u@,
        None => "root"@,
    }
}

/// The systemd unit of a service: its description, user, working
/// directory, and command line (the executable, a space, the arguments
/// separated by spaces); restarted always, five seconds apart.
pub open spec fn unit_text(config: ServiceConfig) -> Seq<char> {
    "[Unit]\nDescription="@ + config.description@ + "\nAfter=network.target\n\n[Service]\nType=simple\nUser="@
        + run_as_user_text(config) + "\nWorkingDirectory="@ + config.working_directory@
        + "\nExecStart="@ + config.executable_path@ + " "@ + join_spec(views(config.arguments@), ' ')
        + "\nRestart=always\nRestartSec=5\n\n[Install]\nWantedBy=multi-user.target\n"@
}

/// The path of a service's systemd unit file.
pub open spec fn unit_path(service_name: Seq<char>) -> Seq<char> {
    "/etc/systemd/system/"@ + service_name + ".service"@
}

/// A `systemctl` command: its arguments, and the text that prefixes its
/// failure.
#[derive(Debug, Clone)]
pub struct SystemctlCommand {
    pub args: Vec<String>,
    pub failure: String,
}

/// A `systemctl` command with the given arguments and failure prefix.
fn systemctl(a: &str, b: Option<&str>, failure: &str) -> (r: SystemctlCommand)
    ensures
        views(r.args@) == match b {
            Some(b) => seq![a@, b@],
            None => seq![a@],
        },
        r.failure@ == failure@,
{
    let mut args: Vec<String> = Vec::new();
    args.push(string_from(a));
    match b {
        Some(b) => args.push(string_from(b)),
        None => {},
    }
    let r = SystemctlCommand { args, failure: string_from(failure) };
    proof {
        match b {
            Some(b) => assert(views(r.args@) =~= seq![a@, b@]),
            None => assert(views(r.args@) =~= seq![a@]),
        }
    }
    r
}

/// The error of a failed `systemctl` command: a system service error, the
/// command's failure prefix, `: ` and the failure.
pub fn systemctl_failure(command: &SystemctlCommand, error: &str) -> (r: PlatformError)
    ensures
        r matches PlatformError::SystemService(m) && m@ == command.failure@ + ": "@ + error@,
{
    let mut m = command.failure.clone();
    append_str(&mut m, ": ");
    append_str(&mut m, error);
    PlatformError::SystemService(m)
}

/// The Linux system service, run through systemd.
#[derive(Debug)]
pub struct LinuxSystemService;

impl LinuxSystemService {
    pub fn new() -> (r: PlatformResult<Self>)
        ensures
            r is Ok,
    {
        Ok(LinuxSystemService)
    }

    /// The unit file a service installs: its path and content.
    pub fn unit_file(&self, config: &ServiceConfig) -> (r: (String, String))
        ensures
            r.0@ == unit_path(config.service_name@),
            r.1@ == unit_text(*config),
    {
        let mut path = string_from("/etc/systemd/system/");
        append_str(&mut path, config.service_name.as_str());
        append_str(&mut path, ".service");
        let mut text = string_from("[Unit]\nDescription=");
        append_str(&mut text, config.description.as_str());
        append_str(&mut text, "\nAfter=network.target\n\n[Service]\nType=simple\nUser=");
        match &config.run_as_user {
            Some(u) => append_str(&mut text, u.as_str()),
            None => append_str(&mut text, "root"),
        }
        append_str(&mut text, "\nWorkingDirectory=");
        append_str(&mut text, config.working_directory.as_str());
        append_str(&mut text, "\nExecStart=");
        append_str(&mut text, config.executable_path.as_str());
        append_str(&mut text, " ");
        let args = join_strings(&config.arguments, ' ');
        append_str(&mut text, args.as_str());
        append_str(&mut text, "\nRestart=always\nRestartSec=5\n\n[Install]\nWantedBy=multi-user.target\n");
        (path, text)
    }

    /// The error of a unit file that could not be written.
    pub fn write_failure(&self, error: &str) -> (r: PlatformError)
        ensures
            r matches PlatformError::SystemService(m) && m@ == "Failed to write service file: "@ + error@,
    {
        let mut m = string_from("Failed to write service file: ");
        append_str(&mut m, error);
        PlatformError::SystemService(m)
    }

    /// The commands that install a service once its unit file is written:
    /// reload systemd, then enable the service where it starts
    /// automatically. The first failure ends the installation.
    pub fn install_commands(&self, config: &ServiceConfig) -> (r: Vec<SystemctlCommand>)
        ensures
            r.len() == if config.auto_start { 2int } else { 1int },
            views(r[0].args@) == seq!["daemon-reload"@],
            r[0].failure@ == "Failed to reload systemd"@,
            config.auto_start ==> views(r[1].args@) == seq!["enable"@, config.service_name@]
                && r[1].failure@ == "Failed to enable service"@,
    {
        let mut r: Vec<SystemctlCommand> = Vec::new();
        r.push(systemctl("daemon-reload", None, "Failed to reload systemd"));
        if config.auto_start {
            r.push(systemctl("enable", Some(config.service_name.as_str()), "Failed to enable service"));
        }
        r
    }

    /// The commands that uninstall the service: stop it, disable it, and
    /// (after its unit file is removed) reload systemd. Failures are
    /// ignored.
    pub fn uninstall_commands(&self) -> (r: (Vec<SystemctlCommand>, String, SystemctlCommand))
        ensures
            r.0.len() == 2,
            views(r.0[0].args@) == seq!["stop"@, LINUX_SERVICE_NAME@],
            views(r.0[1].args@) == seq!["disable"@, LINUX_SERVICE_NAME@],
            r.1@ == unit_path(LINUX_SERVICE_NAME@),
            views(r.2.args@) == seq!["daemon-reload"@],
    {
        let mut first: Vec<SystemctlCommand> = Vec::new();
        first.push(systemctl("stop", Some(LINUX_SERVICE_NAME), "Failed to stop service"));
        first.push(systemctl("disable", Some(LINUX_SERVICE_NAME), "Failed to disable service"));
        let mut path = string_from("/etc/systemd/system/");
        append_str(&mut path, LINUX_SERVICE_NAME);
        append_str(&mut path, ".service");
        (first, path, systemctl("daemon-reload", None, "Failed to reload systemd"))
    }

    /// The command that starts the service.
    pub fn start_command(&self) -> (r: SystemctlCommand)
        ensures
            views(r.args@) == seq!["start"@, LINUX_SERVICE_NAME@],
            r.failure@ == "Failed to start service"@,
    {
        systemctl("start", Some(LINUX_SERVICE_NAME), "Failed to start service")
    }

    /// The command that stops the service.
    pub fn stop_command(&self) -> (r: SystemctlCommand)
        ensures
            views(r.args@) == seq!["stop"@, LINUX_SERVICE_NAME@],
            r.failure@ == "Failed to stop service"@,
    {
        systemctl("stop", Some(LINUX_SERVICE_NAME), "Failed to stop service")
    }

    /// The command that restarts the service.
    pub fn restart_command(&self) -> (r: SystemctlCommand)
        ensures
            views(r.args@) == seq!["restart"@, LINUX_SERVICE_NAME@],
            r.failure@ == "Failed to restart service"@,
    {
        systemctl("restart", Some(LINUX_SERVICE_NAME), "Failed to restart service")
    }

    /// The command that enables automatic start.
    pub fn enable_auto_start_command(&self) -> (r: SystemctlCommand)
        ensures
            views(r.args@) == seq!["enable"@, LINUX_SERVICE_NAME@],
            r.failure@ == "Failed to enable auto-start"@,
    {
        systemctl("enable", Some(LINUX_SERVICE_NAME), "Failed to enable auto-start")
    }

    /// The command that disables automatic start.
    pub fn disable_auto_start_command(&self) -> (r: SystemctlCommand)
        ensures
            views(r.args@) == seq!["disable"@, LINUX_SERVICE_NAME@],
            r.failure@ == "Failed to disable auto-start"@,
    {
        systemctl("disable", Some(LINUX_SERVICE_NAME), "Failed to disable auto-start")
    }

    /// The command that asks whether the service is active.
    pub fn status_command(&self) -> (r: SystemctlCommand)
        ensures
            views(r.args@) == seq!["is-active"@, LINUX_SERVICE_NAME@],
    {
        systemctl("is-active", Some(LINUX_SERVICE_NAME), "Failed to get service status")
    }

    /// The status the answer to `is-active` means: an active service is
    /// installed, running and started automatically; otherwise none of
    /// these. No process id is known.
    pub fn status_from(&self, active: bool) -> (r: PlatformResult<ServiceStatus>)
        ensures
            r matches Ok(s) && s.is_installed == active && s.is_running == active
                && s.is_auto_start_enabled == active && s.pid is None && s.status_message@ == (if active {
                "Running"@
            } else {
                "Not running"@
            }),
    {
        if active {
            Ok(ServiceStatus {
                is_installed: true,
                is_running: true,
                is_auto_start_enabled: true,
                pid: None,
                status_message: string_from("Running"),
            })
        } else {
            Ok(ServiceStatus {
                is_installed: false,
                is_running: false,
                is_auto_start_enabled: false,
                pid: None,
                status_message: string_from("Not running"),
            })
        }
    }
}

/// The status of a service a platform does not manage yet.
fn not_implemented_status() -> (r: ServiceStatus)
    ensures
        !r.is_installed,
        !r.is_running,
        !r.is_auto_start_enabled,
        r.pid is None,
        r.status_message@ == "Not implemented"@,
{
    ServiceStatus {
        is_installed: false,
        is_running: false,
        is_auto_start_enabled: false,
        pid: None,
        status_message: string_from("Not implemented"),
    }
}

/// The macOS system service; its operations do nothing yet and succeed.
#[derive(Debug, Clone)]
pub struct MacOsSystemService;

impl MacOsSystemService {
    pub fn new() -> (r: PlatformResult<Self>)
        ensures
            r is Ok,
    {
        Ok(MacOsSystemService)
    }

    pub fn install_service(&self, config: ServiceConfig) -> (r: PlatformResult<()>)
        ensures
            r is Ok,
    {
        Ok(())
    }

    pub fn uninstall_service(&self) -> (r: PlatformResult<()>)
        ensures
            r is Ok,
    {
        Ok(())
    }

    pub fn start_service(&self) -> (r: PlatformResult<()>)
        ensures
            r is Ok,
    {
        Ok(())
    }

    pub fn stop_service(&self) -> (r: PlatformResult<()>)
        ensures
            r is Ok,
    {
        Ok(())
    }

    pub fn restart_service(&self) -> (r: PlatformResult<()>)
        ensures
            r is Ok,
    {
        Ok(())
    }

    /// The status: not installed, not running, "Not implemented".
    pub fn get_service_status(&self) -> (r: PlatformResult<ServiceStatus>)
        ensures
            r matches Ok(s) && !s.is_installed && !s.is_running && !s.is_auto_start_enabled && s.pid is None
                && s.status_message@ == "Not implemented"@,
    {
        Ok(not_implemented_status())
    }

    pub fn enable_auto_start(&self) -> (r: PlatformResult<()>)
        ensures
            r is Ok,
    {
        Ok(())
    }

    pub fn disable_auto_start(&self) -> (r: PlatformResult<()>)
        ensures
            r is Ok,
    {
        Ok(())
    }
}

/// The Windows system service; its operations do nothing yet and succeed.
#[derive(Debug, Clone)]
pub struct WindowsSystemService;

impl WindowsSystemService {
    pub fn new() -> (r: PlatformResult<Self>)
        ensures
            r is Ok,
    {
        Ok(WindowsSystemService)
    }

    pub fn install_service(&self, config: ServiceConfig) -> (r: PlatformResult<()>)
        ensures
            r is Ok,
    {
        Ok(())
    }

    pub fn uninstall_service(&self) -> (r: PlatformResult<()>)
        ensures
            r is Ok,
    {
        Ok(())
    }

    pub fn start_service(&self) -> (r: PlatformResult<()>)
        ensures
            r is Ok,
    {
        Ok(())
    }

    pub fn stop_service(&self) -> (r: PlatformResult<()>)
        ensures
            r is Ok,
    {
        Ok(())
    }

    pub fn restart_service(&self) -> (r: PlatformResult<()>)
        ensures
            r is Ok,
    {
        Ok(())
    }

    /// The status: not installed, not running, "Not implemented".
    pub fn get_service_status(&self) -> (r: PlatformResult<ServiceStatus>)
        ensures
            r matches Ok(s) && !s.is_installed && !s.is_running && !s.is_auto_start_enabled && s.pid is None
                && s.status_message@ == "Not implemented"@,
    {
        Ok(not_implemented_status())
    }

    pub fn enable_auto_start(&self) -> (r: PlatformResult<()>)
        ensures
            r is Ok,
    {
        Ok(())
    }

    pub fn disable_auto_start(&self) -> (r: PlatformResult<()>)
        ensures
            r is Ok,
    {
        Ok(())
    }
}

/// A service runs as the user configured for it, and as `root` where none
/// is: the unit's `User=` line, which follows the description and the
/// fixed lines before it, names that user.
pub proof fn unit_runs_as_configured_user(config: ServiceConfig)
    ensures
        config.run_as_user matches Some(u) ==> run_as_user_text(config) == u@,
        config.run_as_user is None ==> run_as_user_text(config) == "root"@,
        ({
            let head = "[Unit]\nDescription="@ + config.description@
                + "\nAfter=network.target\n\n[Service]\nType=simple\nUser="@;
            let user = match config.run_as_user {
                Some(u) => u@,
                None => "root"@,
            };
            let line = user + "\nWorkingDirectory="@;
            &&& unit_text(config).subrange(0, head.len() as int) == head
            &&& unit_text(config).subrange(head.len() as int, (head.len() + line.len()) as int) == line
        }),
{
    let head = "[Unit]\nDescription="@ + config.description@
        + "\nAfter=network.target\n\n[Service]\nType=simple\nUser="@;
    let user = run_as_user_text(config);
    let line = user + "\nWorkingDirectory="@;
    let rest = config.working_directory@ + "\nExecStart="@ + config.executable_path@ + " "@ + join_spec(
        views(config.arguments@),
        ' ',
    ) + "\nRestart=always\nRestartSec=5\n\n[Install]\nWantedBy=multi-user.target\n"@;
    assert(unit_text(config) =~= head + line + rest);
    assert((head + line + rest).subrange(0, head.len() as int) =~= head);
    assert((head + line + rest).subrange(head.len() as int, (head.len() + line.len()) as int) =~= line);
}

/// After its `User=` line, a service's unit names the configured working
/// directory, then runs the configured executable with the configured
/// arguments, separated by spaces, and ends with the fixed restart and
/// install sections.
pub proof fn unit_runs_configured_command(config: ServiceConfig)
    ensures
        ({
            let before = "[Unit]\nDescription="@ + config.description@
                + "\nAfter=network.target\n\n[Service]\nType=simple\nUser="@ + run_as_user_text(config);
            let tail = "\nWorkingDirectory="@ + config.working_directory@ + "\nExecStart="@
                + config.executable_path@ + " "@ + join_spec(views(config.arguments@), ' ')
                + "\nRestart=always\nRestartSec=5\n\n[Install]\nWantedBy=multi-user.target\n"@;
            &&& unit_text(config).len() == before.len() + tail.len()
            &&& unit_text(config).subrange(before.len() as int, unit_text(config).len() as int) == tail
        }),
{
    let before = "[Unit]\nDescription="@ + config.description@
        + "\nAfter=network.target\n\n[Service]\nType=simple\nUser="@ + run_as_user_text(config);
    let tail = "\nWorkingDirectory="@ + config.working_directory@ + "\nExecStart="@ + config.executable_path@
        + " "@ + join_spec(views(config.arguments@), ' ')
        + "\nRestart=always\nRestartSec=5\n\n[Install]\nWantedBy=multi-user.target\n"@;
    assert(unit_text(config) =~= before + tail);
    assert((before + tail).subrange(before.len() as int, (before + tail).len() as int) =~= tail);
}

} // verus!
