//! Daemon service configuration: the paths the daemon runs under and the
//! systemd unit it installs.
//!
//! Process control and file system work happen outside the library; the
//! functions here compute what a service installation writes and where, and
//! what a removal deletes.

use vstd::prelude::*;

verus! {

/// The daemon management subcommands the command line offers.
#[derive(Clone, Copy, Debug, PartialEq, Eq, Structural)]
pub enum DaemonCommands {
    /// Start the daemon process.
    Start,
    /// Stop a running daemon process.
    Stop,
    /// Restart the daemon process.
    Restart,
    /// Install the daemon as a system service.
    Install,
    /// Remove the daemon from the system services.
    Uninstall,
    /// Show the daemon's status.
    Status,
}

/// Default location of the PID file.
pub open spec fn default_pid_file() -> Seq<char> {
    "/var/run/learnerd.pid"@
}

/// Default working directory of the daemon.
pub open spec fn default_working_dir() -> Seq<char> {
    "/var/lib/learnerd"@
}

/// Default directory for the daemon's log files.
pub open spec fn default_log_dir() -> Seq<char> {
    "/var/log/learnerd"@
}

/// Where the service unit file lives.
pub open spec fn service_unit_path() -> Seq<char> {
    "/etc/systemd/system/learnerd.service"@
}

/// The text of the service unit that an installation writes.
pub open spec fn service_unit_text() -> Seq<char> {
    "[Unit]\nDescription=Academic Paper Management Daemon\nAfter=network.target\nDocumentation=https://github.com/autoparallel/learner\n\n[Service]\nType=simple\nUser=root\nGroup=root\nExecStart=/usr/local/bin/learnerd daemon start\nRestart=on-failure\nRestartSec=60\nRemainAfterExit=yes\n\n# Logging configuration\nStandardOutput=journal\nStandardError=journal\n\n[Install]\nWantedBy=multi-user.target\n"@
}

/// Configuration for the daemon service: where its PID file, working
/// directory and logs live.
#[derive(Clone, Debug)]
pub struct DaemonConfig {
    /// Path of the PID file.
    pub pid_file: String,
    /// Working directory of the daemon.
    pub working_dir: String,
    /// Directory for log files.
    pub log_dir: String,
}

impl DaemonConfig {
    /// The default configuration paths.
    pub fn new() -> (r: DaemonConfig)
        ensures
            r.pid_file@ == default_pid_file(),
            r.working_dir@ == default_working_dir(),
            r.log_dir@ == default_log_dir(),
    {
        DaemonConfig {
            pid_file: String::from_str("/var/run/learnerd.pid"),
            working_dir: String::from_str("/var/lib/learnerd"),
            log_dir: String::from_str("/var/log/learnerd"),
        }
    }
}

impl Default for DaemonConfig {
    /// The default configuration paths.
    fn default() -> (r: DaemonConfig)
        ensures
            r.pid_file@ == default_pid_file(),
            r.working_dir@ == default_working_dir(),
            r.log_dir@ == default_log_dir(),
    {
        DaemonConfig::new()
    }
}

/// The daemon: its runtime paths.
#[derive(Clone, Debug)]
pub struct Daemon {
    /// Path of the PID file.
    pub pid_file: String,
    /// Working directory of the daemon.
    pub working_dir: String,
    /// Directory for log files.
    pub log_dir: String,
}

/// A file that a service installation asks the system layer to write.
#[derive(Clone, Debug)]
pub struct ServiceFile {
    /// Where the file goes.
    pub path: String,
    /// What the file holds.
    pub contents: String,
}

impl Daemon {
    /// A daemon with the default configuration paths.
    pub fn new() -> (r: Daemon)
        ensures
            r.pid_file@ == default_pid_file(),
            r.working_dir@ == default_working_dir(),
            r.log_dir@ == default_log_dir(),
    {
        Daemon {
            pid_file: String::from_str("/var/run/learnerd.pid"),
            working_dir: String::from_str("/var/lib/learnerd"),
            log_dir: String::from_str("/var/log/learnerd"),
        }
    }

    /// The service unit file an installation writes for this daemon.
    pub fn install(&self) -> (r: ServiceFile)
        ensures
            r.path@ == service_unit_path(),
            r.contents@ == service_unit_text(),
    {
        install_system_daemon(self)
    }

    /// The path a removal deletes.
    pub fn uninstall(&self) -> (r: String)
        ensures
            r@ == service_unit_path(),
    {
        uninstall_system_daemon()
    }
}

impl Default for Daemon {
    /// A daemon with the default configuration paths.
    fn default() -> (r: Daemon)
        ensures
            r.pid_file@ == default_pid_file(),
            r.working_dir@ == default_working_dir(),
            r.log_dir@ == default_log_dir(),
    {
        Daemon::new()
    }
}

/// The service unit file that installs the daemon: the fixed unit text at
/// the systemd unit path.
pub fn install_system_daemon(daemon: &Daemon) -> (r: ServiceFile)
    ensures
        r.path@ == service_unit_path(),
        r.contents@ == service_unit_text(),
{
    ServiceFile {
        path: String::from_str("/etc/systemd/system/learnerd.service"),
        contents: String::from_str(
            "[Unit]\nDescription=Academic Paper Management Daemon\nAfter=network.target\nDocumentation=https://github.com/autoparallel/learner\n\n[Service]\nType=simple\nUser=root\nGroup=root\nExecStart=/usr/local/bin/learnerd daemon start\nRestart=on-failure\nRestartSec=60\nRemainAfterExit=yes\n\n# Logging configuration\nStandardOutput=journal\nStandardError=journal\n\n[Install]\nWantedBy=multi-user.target\n",
        ),
    }
}

/// The path whose removal uninstalls the daemon service.
pub fn uninstall_system_daemon() -> (r: String)
    ensures
        r@ == service_unit_path(),
{
    String::from_str("/etc/systemd/system/learnerd.service")
}

} // verus!
