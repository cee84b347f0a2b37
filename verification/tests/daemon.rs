use learner::daemon::{
    install_system_daemon, uninstall_system_daemon, Daemon, DaemonCommands, DaemonConfig,
};

#[test]
fn test_daemon_default_paths() {
    let daemon = Daemon::new();
    assert_eq!(daemon.pid_file, "/var/run/learnerd.pid");
    assert_eq!(daemon.working_dir, "/var/lib/learnerd");
    assert_eq!(daemon.log_dir, "/var/log/learnerd");

    let config = DaemonConfig::new();
    assert_eq!(config.pid_file, daemon.pid_file);
    assert_eq!(config.working_dir, daemon.working_dir);
    assert_eq!(config.log_dir, daemon.log_dir);
}

#[test]
fn test_daemon_install_plan() {
    let daemon = Daemon::new();
    let unit = daemon.install();
    assert_eq!(unit.path, "/etc/systemd/system/learnerd.service");
    assert!(unit.contents.starts_with("[Unit]"));
    assert!(unit.contents.contains("ExecStart=/usr/local/bin/learnerd daemon start"));
    assert!(unit.contents.contains("WantedBy=multi-user.target"));

    let direct = install_system_daemon(&daemon);
    assert_eq!(direct.path, unit.path);
    assert_eq!(direct.contents, unit.contents);
}

#[test]
fn test_daemon_uninstall_plan() {
    let daemon = Daemon::new();
    assert_eq!(daemon.uninstall(), "/etc/systemd/system/learnerd.service");
    assert_eq!(uninstall_system_daemon(), daemon.uninstall());
}

#[test]
fn test_daemon_commands_are_distinct() {
    let all = [
        DaemonCommands::Start,
        DaemonCommands::Stop,
        DaemonCommands::Restart,
        DaemonCommands::Install,
        DaemonCommands::Uninstall,
        DaemonCommands::Status,
    ];
    for (i, a) in all.iter().enumerate() {
        for (j, b) in all.iter().enumerate() {
            assert_eq!(i == j, a == b);
        }
    }
}
