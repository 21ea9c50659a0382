//! The commands of the operating system that the monitor runs, and how it runs them.

#[allow(unused_imports)]
use crate::text::texts;
use vstd::prelude::*;

verus! {

/// A command that is run the same way every time.
#[derive(Clone, Copy, PartialEq, Eq, Debug)]
pub enum SystemCommand {
    /// The state of the wireless interfaces.
    Wifi,
    /// The services, as JSON.
    Services,
    /// The programs that start with the system, as JSON.
    StartupApps,
    /// The connections and the ports, with the processes that hold them.
    Connections,
    /// The containers, with bars between the fields.
    Containers,
    /// The name of the graphics card.
    GpuName,
    /// The size of the video memory.
    VramTotal,
    /// The load and the video memory in use, from the tool of the maker of the card.
    Nvidia,
    /// The load of the graphics card, from the performance counters.
    GpuLoad,
    /// The video memory in use, from the performance counters.
    GpuMemory,
    NodeVersion,
    PythonVersion,
    Python3Version,
    RustVersion,
    GitVersion,
    /// The version of Java, which is printed on the error stream.
    JavaVersion,
    GoVersion,
    DotnetVersion,
    PhpVersion,
    /// The release of memory that idle processes hold.
    CleanupMemory,
}

/// The program that a command runs.
pub open spec fn program_of(c: SystemCommand) -> Seq<char> {
    match c {
        SystemCommand::Wifi => "netsh"@,
        SystemCommand::Services => "powershell"@,
        SystemCommand::StartupApps => "powershell"@,
        SystemCommand::Connections => "netstat"@,
        SystemCommand::Containers => "docker"@,
        SystemCommand::GpuName => "wmic"@,
        SystemCommand::VramTotal => "wmic"@,
        SystemCommand::Nvidia => "nvidia-smi"@,
        SystemCommand::GpuLoad => "powershell"@,
        SystemCommand::GpuMemory => "powershell"@,
        SystemCommand::NodeVersion => "node"@,
        SystemCommand::PythonVersion => "python"@,
        SystemCommand::Python3Version => "python3"@,
        SystemCommand::RustVersion => "rustc"@,
        SystemCommand::GitVersion => "git"@,
        SystemCommand::JavaVersion => "java"@,
        SystemCommand::GoVersion => "go"@,
        SystemCommand::DotnetVersion => "dotnet"@,
        SystemCommand::PhpVersion => "php"@,
        SystemCommand::CleanupMemory => "powershell"@,
    }
}

/// The arguments that a command hands to its program.
pub open spec fn arguments_of(c: SystemCommand) -> Seq<Seq<char>> {
    match c {
        SystemCommand::Wifi => seq!["wlan"@, "show"@, "interfaces"@],
        SystemCommand::Services => seq!["-Command"@, "Get-Service | Select-Object Name, DisplayName, Status | ConvertTo-Json"@],
        SystemCommand::StartupApps => seq!["-Command"@, "Get-CimInstance Win32_StartupCommand | Select-Object Name, Command, Location | ConvertTo-Json"@],
        SystemCommand::Connections => seq!["-ano"@],
        SystemCommand::Containers => seq!["ps"@, "-a"@, "--format"@, "{{.ID}}|{{.Names}}|{{.Image}}|{{.Status}}|{{.State}}|{{.Ports}}"@],
        SystemCommand::GpuName => seq!["path"@, "win32_VideoController"@, "get"@, "name"@],
        SystemCommand::VramTotal => seq!["path"@, "win32_VideoController"@, "get"@, "AdapterRAM"@],
        SystemCommand::Nvidia => seq!["--query-gpu=utilization.gpu,memory.used"@, "--format=csv,noheader,nounits"@],
        SystemCommand::GpuLoad => seq!["-Command"@, "(Get-Counter '\\GPU Engine(*)\\Utilization Percentage' -ErrorAction SilentlyContinue).CounterSamples | Measure-Object -Property CookedValue -Average | Select-Object -ExpandProperty Average"@],
        SystemCommand::GpuMemory => seq!["-Command"@, "(Get-Counter '\\GPU Process Memory(*)\\Dedicated Usage' -ErrorAction SilentlyContinue).CounterSamples | Measure-Object -Property CookedValue -Sum | Select-Object -ExpandProperty Sum"@],
        SystemCommand::NodeVersion => seq!["--version"@],
        SystemCommand::PythonVersion => seq!["--version"@],
        SystemCommand::Python3Version => seq!["--version"@],
        SystemCommand::RustVersion => seq!["--version"@],
        SystemCommand::GitVersion => seq!["--version"@],
        SystemCommand::JavaVersion => seq!["-version"@],
        SystemCommand::GoVersion => seq!["version"@],
        SystemCommand::DotnetVersion => seq!["--version"@],
        SystemCommand::PhpVersion => seq!["-v"@],
        SystemCommand::CleanupMemory => seq!["-Command"@, "\n            Get-Process | Where-Object { $_.MainWindowTitle -eq \"\" -and $_.CPU -lt 1 } | ForEach-Object { \n                try { [Runtime.InteropServices.Marshal]::FreeHGlobal(0) } catch {}\n            }\n        "@],
    }
}

/// The program that a command runs.
pub fn program(c: SystemCommand) -> (r: &'static str)
    ensures
        r@ == program_of(c),
{
    match c {
        SystemCommand::Wifi => "netsh",
        SystemCommand::Services => "powershell",
        SystemCommand::StartupApps => "powershell",
        SystemCommand::Connections => "netstat",
        SystemCommand::Containers => "docker",
        SystemCommand::GpuName => "wmic",
        SystemCommand::VramTotal => "wmic",
        SystemCommand::Nvidia => "nvidia-smi",
        SystemCommand::GpuLoad => "powershell",
        SystemCommand::GpuMemory => "powershell",
        SystemCommand::NodeVersion => "node",
        SystemCommand::PythonVersion => "python",
        SystemCommand::Python3Version => "python3",
        SystemCommand::RustVersion => "rustc",
        SystemCommand::GitVersion => "git",
        SystemCommand::JavaVersion => "java",
        SystemCommand::GoVersion => "go",
        SystemCommand::DotnetVersion => "dotnet",
        SystemCommand::PhpVersion => "php",
        SystemCommand::CleanupMemory => "powershell",
    }
}

fn one(a: &str) -> (r: Vec<String>)
    ensures
        texts(r@) == seq![a@],
{
    let mut r: Vec<String> = Vec::new();
    r.push(a.to_string());
    assert(texts(r@) =~= seq![a@]);
    r
}

fn two(a: &str, b: &str) -> (r: Vec<String>)
    ensures
        texts(r@) == seq![a@, b@],
{
    let mut r: Vec<String> = Vec::new();
    r.push(a.to_string());
    r.push(b.to_string());
    assert(texts(r@) =~= seq![a@, b@]);
    r
}

fn three(a: &str, b: &str, c: &str) -> (r: Vec<String>)
    ensures
        texts(r@) == seq![a@, b@, c@],
{
    let mut r: Vec<String> = Vec::new();
    r.push(a.to_string());
    r.push(b.to_string());
    r.push(c.to_string());
    assert(texts(r@) =~= seq![a@, b@, c@]);
    r
}

fn four(a: &str, b: &str, c: &str, d: &str) -> (r: Vec<String>)
    ensures
        texts(r@) == seq![a@, b@, c@, d@],
{
    let mut r: Vec<String> = Vec::new();
    r.push(a.to_string());
    r.push(b.to_string());
    r.push(c.to_string());
    r.push(d.to_string());
    assert(texts(r@) =~= seq![a@, b@, c@, d@]);
    r
}

/// The arguments that a command hands to its program.
pub fn arguments(c: SystemCommand) -> (r: Vec<String>)
    ensures
        texts(r@) == arguments_of(c),
{
    match c {
        SystemCommand::Wifi => three("wlan", "show", "interfaces"),
        SystemCommand::Services => two("-Command", "Get-Service | Select-Object Name, DisplayName, Status | ConvertTo-Json"),
        SystemCommand::StartupApps => two("-Command", "Get-CimInstance Win32_StartupCommand | Select-Object Name, Command, Location | ConvertTo-Json"),
        SystemCommand::Connections => one("-ano"),
        SystemCommand::Containers => four("ps", "-a", "--format", "{{.ID}}|{{.Names}}|{{.Image}}|{{.Status}}|{{.State}}|{{.Ports}}"),
        SystemCommand::GpuName => four("path", "win32_VideoController", "get", "name"),
        SystemCommand::VramTotal => four("path", "win32_VideoController", "get", "AdapterRAM"),
        SystemCommand::Nvidia => two("--query-gpu=utilization.gpu,memory.used", "--format=csv,noheader,nounits"),
        SystemCommand::GpuLoad => two("-Command", "(Get-Counter '\\GPU Engine(*)\\Utilization Percentage' -ErrorAction SilentlyContinue).CounterSamples | Measure-Object -Property CookedValue -Average | Select-Object -ExpandProperty Average"),
        SystemCommand::GpuMemory => two("-Command", "(Get-Counter '\\GPU Process Memory(*)\\Dedicated Usage' -ErrorAction SilentlyContinue).CounterSamples | Measure-Object -Property CookedValue -Sum | Select-Object -ExpandProperty Sum"),
        SystemCommand::NodeVersion => one("--version"),
        SystemCommand::PythonVersion => one("--version"),
        SystemCommand::Python3Version => one("--version"),
        SystemCommand::RustVersion => one("--version"),
        SystemCommand::GitVersion => one("--version"),
        SystemCommand::JavaVersion => one("-version"),
        SystemCommand::GoVersion => one("version"),
        SystemCommand::DotnetVersion => one("--version"),
        SystemCommand::PhpVersion => one("-v"),
        SystemCommand::CleanupMemory => two("-Command", "\n            Get-Process | Where-Object { $_.MainWindowTitle -eq \"\" -and $_.CPU -lt 1 } | ForEach-Object { \n                try { [Runtime.InteropServices.Marshal]::FreeHGlobal(0) } catch {}\n            }\n        "),
    }
}

} // verus!
