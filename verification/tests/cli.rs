use zoh_monitor::cli::{
    clean_heading, clean_report, freed_space, handle_cli_commands, help, monitor_heading,
    monitor_line, monitor_usage, scan_report, CliCommand, ScanInfo,
};

fn command(args: &[&str]) -> CliCommand {
    handle_cli_commands(&args.iter().map(|s| s.to_string()).collect())
}

#[test]
fn commands_of_the_command_line() {
    assert_eq!(command(&[]), CliCommand::Window);
    assert_eq!(command(&["zoh"]), CliCommand::Window);
    assert_eq!(command(&["zoh", "scan"]), CliCommand::Scan);
    assert_eq!(command(&["zoh", "scan", "more"]), CliCommand::Scan);
    assert_eq!(command(&["zoh", "monitor"]), CliCommand::MonitorUsage);
    assert_eq!(command(&["zoh", "monitor", "x", "--cpu"]), CliCommand::MonitorCpu);
    assert_eq!(command(&["zoh", "clean-temp"]), CliCommand::CleanTemp);
    for word in ["help", "--help", "-h"] {
        assert_eq!(command(&["zoh", word]), CliCommand::Help);
    }
    assert_eq!(command(&["zoh", "Scan"]), CliCommand::Window);
    assert_eq!(command(&["zoh", "--cpu"]), CliCommand::Window);
}

#[test]
fn the_scan_report() {
    let info = ScanInfo {
        name: Some("Ubuntu".to_string()),
        version: Some("22.04".to_string()),
        kernel: None,
        host: Some("box".to_string()),
        arch: "x86_64".to_string(),
        cpu_model: "Ryzen".to_string(),
        usage: "12.50".to_string(),
        total_memory: 16 * 1024 * 1024 * 1024,
        used_memory: 5 * 1024 * 1024 - 1,
        total_swap: 2048 * 1024 * 1024,
        used_swap: 0,
        uptime: 3 * 3600 + 7 * 60 + 59,
    };
    assert_eq!(
        scan_report(&info),
        vec![
            "\x1b[93m--- ZOH: AI SYSTEM SCAN (CLI MODE) ---\x1b[0m",
            "System Name:    Ubuntu",
            "System Version: 22.04",
            "Kernel Version: ",
            "Host Name:      box",
            "Arch:           x86_64",
            "",
            "CPU Model:      Ryzen",
            "Global Usage:   12.50%",
            "Total Memory:   16384 MB",
            "Used Memory:    4 MB",
            "Swap:           0 / 2048 MB",
            "",
            "Uptime:         3h 7m",
            "\x1b[93m--------------------------------------\x1b[0m",
        ]
    );
}

#[test]
fn the_monitor() {
    for length in [0usize, 7, 49, 50, 51] {
        assert_eq!(
            monitor_line(length, "14.3"),
            format!("\rCPU Usage: \x1b[92m[{: <50}]\x1b[0m {}%   ", "=".repeat(length), "14.3")
        );
    }
    assert_eq!(
        monitor_heading(),
        "\x1b[93mZOH Active Monitor: CPU Usage (Ctrl+C to stop)\x1b[0m"
    );
    assert_eq!(monitor_usage(), "Usage: zoh monitor --cpu");
}

#[test]
fn the_cleaner() {
    assert_eq!(
        clean_heading(),
        "\x1b[91mZOH Cleaner: Searching for temporary clutter...\x1b[0m"
    );
    assert_eq!(freed_space(&vec![]), Some(0));
    assert_eq!(freed_space(&vec![(5, true), (7, false), (u64::MAX - 5, true)]), Some(u64::MAX));
    assert_eq!(freed_space(&vec![(6, true), (u64::MAX - 5, true)]), None);
    assert_eq!(
        clean_report(3 * 1024 * 1024 + 5),
        "\x1b[92mSuccess! ZOH has freed up 3 MB of temporary space.\x1b[0m"
    );
}

#[test]
fn the_help() {
    assert_eq!(
        help(),
        vec![
            "ZOH: AI SYSTEM MONITOR - CLI HELP",
            "Commands:",
            "  scan         Quick system health and hardware summary",
            "  monitor      Real-time monitors (usage: monitor --cpu)",
            "  clean-temp   Purge system temporary files",
        ]
    );
}
