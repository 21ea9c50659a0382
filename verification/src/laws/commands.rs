//! Which commands are run.

#[allow(unused_imports)]
use crate::commands::{arguments, program, SystemCommand};
#[allow(unused_imports)]
use crate::text::{split, texts, Delimiter};
use vstd::prelude::*;

verus! {

/// Each command runs its own program.
pub proof fn law_programs(c: SystemCommand, r: &'static str)
    requires
        call_ensures(program, (c,), r),
    ensures
        c is Wifi ==> r@ == "netsh"@,
        c is Services ==> r@ == "powershell"@,
        c is StartupApps ==> r@ == "powershell"@,
        c is Connections ==> r@ == "netstat"@,
        c is Containers ==> r@ == "docker"@,
        c is GpuName ==> r@ == "wmic"@,
        c is VramTotal ==> r@ == "wmic"@,
        c is Nvidia ==> r@ == "nvidia-smi"@,
        c is GpuLoad ==> r@ == "powershell"@,
        c is GpuMemory ==> r@ == "powershell"@,
        c is NodeVersion ==> r@ == "node"@,
        c is PythonVersion ==> r@ == "python"@,
        c is Python3Version ==> r@ == "python3"@,
        c is RustVersion ==> r@ == "rustc"@,
        c is GitVersion ==> r@ == "git"@,
        c is JavaVersion ==> r@ == "java"@,
        c is GoVersion ==> r@ == "go"@,
        c is DotnetVersion ==> r@ == "dotnet"@,
        c is PhpVersion ==> r@ == "php"@,
        c is CleanupMemory ==> r@ == "powershell"@,
{
}

/// Each command has its own arguments.
pub proof fn law_arguments(c: SystemCommand, r: Vec<String>)
    requires
        call_ensures(arguments, (c,), r),
    ensures
        c is Wifi ==> r@.len() == 3 && r@[0]@ == "wlan"@ && r@[1]@ == "show"@ && r@[2]@ == "interfaces"@,
        c is Services ==> r@.len() == 2 && r@[0]@ == "-Command"@ && r@[1]@ == "Get-Service | Select-Object Name, DisplayName, Status | ConvertTo-Json"@,
        c is StartupApps ==> r@.len() == 2 && r@[0]@ == "-Command"@ && r@[1]@ == "Get-CimInstance Win32_StartupCommand | Select-Object Name, Command, Location | ConvertTo-Json"@,
        c is Connections ==> r@.len() == 1 && r@[0]@ == "-ano"@,
        c is Containers ==> r@.len() == 4 && r@[0]@ == "ps"@ && r@[1]@ == "-a"@ && r@[2]@ == "--format"@ && r@[3]@ == "{{.ID}}|{{.Names}}|{{.Image}}|{{.Status}}|{{.State}}|{{.Ports}}"@,
        c is GpuName ==> r@.len() == 4 && r@[0]@ == "path"@ && r@[1]@ == "win32_VideoController"@ && r@[2]@ == "get"@ && r@[3]@ == "name"@,
        c is VramTotal ==> r@.len() == 4 && r@[0]@ == "path"@ && r@[1]@ == "win32_VideoController"@ && r@[2]@ == "get"@ && r@[3]@ == "AdapterRAM"@,
        c is Nvidia ==> r@.len() == 2 && r@[0]@ == "--query-gpu=utilization.gpu,memory.used"@ && r@[1]@ == "--format=csv,noheader,nounits"@,
        c is GpuLoad ==> r@.len() == 2 && r@[0]@ == "-Command"@ && r@[1]@ == "(Get-Counter '\\GPU Engine(*)\\Utilization Percentage' -ErrorAction SilentlyContinue).CounterSamples | Measure-Object -Property CookedValue -Average | Select-Object -ExpandProperty Average"@,
        c is GpuMemory ==> r@.len() == 2 && r@[0]@ == "-Command"@ && r@[1]@ == "(Get-Counter '\\GPU Process Memory(*)\\Dedicated Usage' -ErrorAction SilentlyContinue).CounterSamples | Measure-Object -Property CookedValue -Sum | Select-Object -ExpandProperty Sum"@,
        c is NodeVersion ==> r@.len() == 1 && r@[0]@ == "--version"@,
        c is PythonVersion ==> r@.len() == 1 && r@[0]@ == "--version"@,
        c is Python3Version ==> r@.len() == 1 && r@[0]@ == "--version"@,
        c is RustVersion ==> r@.len() == 1 && r@[0]@ == "--version"@,
        c is GitVersion ==> r@.len() == 1 && r@[0]@ == "--version"@,
        c is JavaVersion ==> r@.len() == 1 && r@[0]@ == "-version"@,
        c is GoVersion ==> r@.len() == 1 && r@[0]@ == "version"@,
        c is DotnetVersion ==> r@.len() == 1 && r@[0]@ == "--version"@,
        c is PhpVersion ==> r@.len() == 1 && r@[0]@ == "-v"@,
        c is CleanupMemory ==> r@.len() == 2 && r@[0]@ == "-Command"@ && r@[1]@ == "\n            Get-Process | Where-Object { $_.MainWindowTitle -eq \"\" -and $_.CPU -lt 1 } | ForEach-Object { \n                try { [Runtime.InteropServices.Marshal]::FreeHGlobal(0) } catch {}\n            }\n        "@,
{
    let ts = texts(r@);
    assert(ts.len() == r@.len());
    assert(forall|i: int| 0 <= i < r@.len() ==> ts[i] == (#[trigger] r@[i])@);
}

} // verus!
