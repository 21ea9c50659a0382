use std::collections::HashMap;
use zoh_monitor::environment::{
    get_environment_info, os_details, read_version, shell_type, OsNames, ShellProbe, ToolOutputs,
    VersionStyle,
};

fn bytes(s: &str) -> Option<Vec<u8>> {
    Some(s.as_bytes().to_vec())
}

fn tools() -> ToolOutputs {
    ToolOutputs {
        node: bytes("v20.11.0\r\n"),
        python: None,
        python3: bytes("Python 3.12.1\n"),
        rustc: bytes("rustc 1.76.0 (07dca489a 2024-02-04)\n"),
        git: bytes("git version 2.43.0.windows.1\n"),
        java: bytes("openjdk version \"17.0.9\" 2023-10-17\nOpenJDK Runtime Environment\n"),
        go: bytes("go version go1.22.0 windows/amd64\n"),
        dotnet: bytes("8.0.101\n"),
        php: bytes("PHP 8.3.2 (cli)\nCopyright\n"),
    }
}

fn os() -> OsNames {
    OsNames {
        name: Some("Windows".to_string()),
        version: Some("11 (22631)".to_string()),
        arch: "x86_64".to_string(),
    }
}

#[test]
fn versions_are_read() {
    let mut vars = HashMap::new();
    vars.insert("HOME".to_string(), "/root".to_string());
    let probe = ShellProbe::Windows { ps_module_path: true };
    let info = get_environment_info(&tools(), &os(), &probe, vars.clone());
    assert_eq!(info.node_version, "v20.11.0");
    assert_eq!(info.python_version, "Python 3.12.1");
    assert_eq!(info.rust_version, "1.76.0");
    assert_eq!(info.git_version, "2.43.0.windows.1");
    assert_eq!(info.java_version, "\"17.0.9\" 2023-10-17");
    assert_eq!(info.go_version, "go1.22.0");
    assert_eq!(info.dotnet_version, "8.0.101");
    assert_eq!(info.php_version, "8.3.2");
    assert_eq!(info.os_details, "Windows 11 (22631) (x86_64)");
    assert_eq!(info.shell_type, "PowerShell");
    assert_eq!(info.env_vars, vars);
}

#[test]
fn missing_tools() {
    let none = ToolOutputs {
        node: None,
        python: None,
        python3: None,
        rustc: None,
        git: None,
        java: None,
        go: None,
        dotnet: None,
        php: None,
    };
    let probe = ShellProbe::Unix { shell: None };
    let info = get_environment_info(&none, &os(), &probe, HashMap::new());
    for version in [
        info.node_version, info.python_version, info.rust_version, info.git_version,
        info.java_version, info.go_version, info.dotnet_version, info.php_version,
    ] {
        assert_eq!(version, "Not found");
    }
    assert_eq!(info.shell_type, "Unknown");
}

#[test]
fn python_goes_before_python3() {
    let mut tools = tools();
    tools.python = bytes("");
    let probe = ShellProbe::Unix { shell: None };
    assert_eq!(get_environment_info(&tools, &os(), &probe, HashMap::new()).python_version, "");
}

#[test]
fn version_styles() {
    assert_eq!(read_version("rustc", VersionStyle::Word(1)), "Unknown");
    assert_eq!(read_version("", VersionStyle::Java), "Not found");
    assert_eq!(read_version("java version \"1.8\"", VersionStyle::Java), "\"1.8\"");
    assert_eq!(read_version("", VersionStyle::Php), "Not found");
    assert_eq!(read_version("\nPHP 8", VersionStyle::Php), "Unknown");
    assert_eq!(read_version("git version git version 2", VersionStyle::Git), "2");
    assert_eq!(read_version("  a b ", VersionStyle::Whole), "a b");
}

#[test]
fn shells() {
    assert_eq!(shell_type(&ShellProbe::Windows { ps_module_path: false }), "CMD");
    assert_eq!(shell_type(&ShellProbe::Unix { shell: Some("/bin/zsh".to_string()) }), "zsh");
    assert_eq!(shell_type(&ShellProbe::Unix { shell: Some("fish".to_string()) }), "fish");
}

#[test]
fn a_system_without_names() {
    let os = OsNames { name: None, version: None, arch: "arm".to_string() };
    assert_eq!(os_details(&os), "  (arm)");
}
