//! The commands that the program takes on the command line, and what it prints for them.

#[allow(unused_imports)]
use crate::environment::or_empty;
#[allow(unused_imports)]
use crate::number::decimal;
use crate::number::decimal_text;
use crate::text::same_text;
#[allow(unused_imports)]
use crate::text::texts;
use vstd::prelude::*;
use vstd::string::*;

verus! {

/// What the command line asks for.
#[derive(Clone, Copy, PartialEq, Eq, Debug)]
pub enum CliCommand {
    /// Nothing: the window is to be opened.
    Window,
    /// A summary of the system.
    Scan,
    /// The load of the processor, until the program is stopped.
    MonitorCpu,
    /// How to use the monitor.
    MonitorUsage,
    /// The temporary files are to be removed.
    CleanTemp,
    /// The list of commands.
    Help,
}

/// What the arguments of the program ask for; the first is the name of the program itself.
pub open spec fn command_of(args: Seq<Seq<char>>) -> CliCommand {
    if args.len() < 2 {
        CliCommand::Window
    } else if args[1] == "scan"@ {
        CliCommand::Scan
    } else if args[1] == "monitor"@ {
        if args.contains("--cpu"@) {
            CliCommand::MonitorCpu
        } else {
            CliCommand::MonitorUsage
        }
    } else if args[1] == "clean-temp"@ {
        CliCommand::CleanTemp
    } else if args[1] == "help"@ || args[1] == "--help"@ || args[1] == "-h"@ {
        CliCommand::Help
    } else {
        CliCommand::Window
    }
}

fn has_argument(args: &Vec<String>, wanted: &str) -> (r: bool)
    ensures
        r == texts(args@).contains(wanted@),
{
    let mut i: usize = 0;
    while i < args.len()
        invariant
            i <= args.len(),
            forall|j: int| 0 <= j < i ==> (#[trigger] texts(args@)[j]) != wanted@,
        decreases args.len() - i,
    {
        assert(texts(args@)[i as int] == args@[i as int]@);
        if same_text(args[i].as_str(), wanted) {
            return true;
        }
        i += 1;
    }
    false
}

/// What the arguments of the program ask for.
pub fn handle_cli_commands(args: &Vec<String>) -> (r: CliCommand)
    ensures
        r == command_of(texts(args@)),
{
    if args.len() < 2 {
        return CliCommand::Window;
    }
    assert(texts(args@)[1] == args@[1]@);
    let command: &str = args[1].as_str();
    if same_text(command, "scan") {
        return CliCommand::Scan;
    }
    if same_text(command, "monitor") {
        if has_argument(args, "--cpu") {
            return CliCommand::MonitorCpu;
        }
        return CliCommand::MonitorUsage;
    }
    if same_text(command, "clean-temp") {
        return CliCommand::CleanTemp;
    }
    if same_text(command, "help") || same_text(command, "--help") || same_text(command, "-h") {
        return CliCommand::Help;
    }
    CliCommand::Window
}

/// What the summary of the system tells.
pub struct ScanInfo {
    pub name: Option<String>,
    pub version: Option<String>,
    pub kernel: Option<String>,
    pub host: Option<String>,
    pub arch: String,
    pub cpu_model: String,
    /// The load of the processor in percent, with two decimals.
    pub usage: String,
    /// Bytes.
    pub total_memory: u64,
    /// Bytes.
    pub used_memory: u64,
    /// Bytes.
    pub total_swap: u64,
    /// Bytes.
    pub used_swap: u64,
    /// Seconds.
    pub uptime: u64,
}

/// A number of bytes in mebibytes, rounded down, in decimal.
pub open spec fn mebibytes(bytes: u64) -> Seq<char> {
    decimal((bytes / 1024 / 1024) as nat)
}

/// The lines of the summary of the system.
pub open spec fn scan_lines(info: ScanInfo) -> Seq<Seq<char>> {
    seq![
        "\x1b[93m--- ZOH: AI SYSTEM SCAN (CLI MODE) ---\x1b[0m"@,
        "System Name:    "@ + or_empty(info.name),
        "System Version: "@ + or_empty(info.version),
        "Kernel Version: "@ + or_empty(info.kernel),
        "Host Name:      "@ + or_empty(info.host),
        "Arch:           "@ + info.arch@,
        ""@,
        "CPU Model:      "@ + info.cpu_model@,
        "Global Usage:   "@ + info.usage@ + "%"@,
        "Total Memory:   "@ + mebibytes(info.total_memory) + " MB"@,
        "Used Memory:    "@ + mebibytes(info.used_memory) + " MB"@,
        "Swap:           "@ + mebibytes(info.used_swap) + " / "@ + mebibytes(info.total_swap)
            + " MB"@,
        ""@,
        "Uptime:         "@ + decimal((info.uptime / 3600) as nat) + "h "@ + decimal(
            (info.uptime % 3600 / 60) as nat,
        ) + "m"@,
        "\x1b[93m--------------------------------------\x1b[0m"@,
    ]
}

fn label(name: &str, value: &Option<String>) -> (r: String)
    ensures
        r@ == name@ + or_empty(*value),
{
    let mut r: String = name.to_string();
    match value {
        Some(s) => {
            r.append(s.as_str());
        },
        None => {
            assert(name@ + Seq::<char>::empty() =~= name@);
        },
    }
    r
}

fn between(before: &str, middle: &str, behind: &str) -> (r: String)
    ensures
        r@ == before@ + middle@ + behind@,
{
    let mut r: String = before.to_string();
    r.append(middle);
    r.append(behind);
    r
}

fn mebibytes_text(bytes: u64) -> (r: String)
    ensures
        r@ == mebibytes(bytes),
{
    decimal_text(bytes / 1024 / 1024)
}

/// The summary of the system, line by line.
pub fn scan_report(info: &ScanInfo) -> (r: Vec<String>)
    ensures
        texts(r@) == scan_lines(*info),
{
    let mut r: Vec<String> = Vec::new();
    r.push("\x1b[93m--- ZOH: AI SYSTEM SCAN (CLI MODE) ---\x1b[0m".to_string());
    r.push(label("System Name:    ", &info.name));
    r.push(label("System Version: ", &info.version));
    r.push(label("Kernel Version: ", &info.kernel));
    r.push(label("Host Name:      ", &info.host));
    let mut arch: String = "Arch:           ".to_string();
    arch.append(info.arch.as_str());
    r.push(arch);
    r.push("".to_string());
    let mut model: String = "CPU Model:      ".to_string();
    model.append(info.cpu_model.as_str());
    r.push(model);
    r.push(between("Global Usage:   ", info.usage.as_str(), "%"));
    r.push(between("Total Memory:   ", mebibytes_text(info.total_memory).as_str(), " MB"));
    r.push(between("Used Memory:    ", mebibytes_text(info.used_memory).as_str(), " MB"));
    let mut swap: String = between("Swap:           ", mebibytes_text(info.used_swap).as_str(), " / ");
    swap.append(mebibytes_text(info.total_swap).as_str());
    swap.append(" MB");
    r.push(swap);
    r.push("".to_string());
    let mut uptime: String = between(
        "Uptime:         ",
        decimal_text(info.uptime / 3600).as_str(),
        "h ",
    );
    uptime.append(decimal_text(info.uptime % 3600 / 60).as_str());
    uptime.append("m");
    r.push(uptime);
    r.push("\x1b[93m--------------------------------------\x1b[0m".to_string());
    assert(texts(r@) =~= scan_lines(*info));
    r
}

/// A character several times over.
pub open spec fn repeated(c: char, n: nat) -> Seq<char> {
    Seq::new(n, |i: int| c)
}

/// A bar of the given length, with spaces behind it up to a width of fifty.
pub open spec fn bar_of(length: nat) -> Seq<char> {
    repeated('=', length) + repeated(
        ' ',
        if length < 50 {
            (50 - length) as nat
        } else {
            0
        },
    )
}

fn push_repeated(s: &mut String, c: char, n: usize)
    ensures
        final(s)@ == old(s)@ + repeated(c, n as nat),
{
    let mut i: usize = 0;
    let ghost before = s@;
    assert(before + repeated(c, 0) =~= before);
    while i < n
        invariant
            i <= n,
            s@ == before + repeated(c, i as nat),
        decreases n - i,
    {
        s.push(c);
        assert((before + repeated(c, i as nat)).push(c) =~= before + repeated(c, (i + 1) as nat));
        i += 1;
    }
}

/// The line that the monitor prints over the one before: a bar of half as many characters as the
/// load in percent has whole points, and the load with one decimal.
pub fn monitor_line(length: usize, usage: &str) -> (r: String)
    ensures
        r@ == "\rCPU Usage: \x1b[92m["@ + bar_of(length as nat) + "]\x1b[0m "@ + usage@ + "%   "@,
{
    let mut r: String = "\rCPU Usage: \x1b[92m[".to_string();
    push_repeated(&mut r, '=', length);
    let rest: usize = if length < 50 {
        50 - length
    } else {
        0
    };
    push_repeated(&mut r, ' ', rest);
    assert(r@ =~= "\rCPU Usage: \x1b[92m["@ + bar_of(length as nat));
    r.append("]\x1b[0m ");
    r.append(usage);
    r.append("%   ");
    r
}

/// The line above the monitor.
pub fn monitor_heading() -> (r: String)
    ensures
        r@ == "\x1b[93mZOH Active Monitor: CPU Usage (Ctrl+C to stop)\x1b[0m"@,
{
    "\x1b[93mZOH Active Monitor: CPU Usage (Ctrl+C to stop)\x1b[0m".to_string()
}

/// How to use the monitor.
pub fn monitor_usage() -> (r: String)
    ensures
        r@ == "Usage: zoh monitor --cpu"@,
{
    "Usage: zoh monitor --cpu".to_string()
}

/// The line above the removal of temporary files.
pub fn clean_heading() -> (r: String)
    ensures
        r@ == "\x1b[91mZOH Cleaner: Searching for temporary clutter...\x1b[0m"@,
{
    "\x1b[91mZOH Cleaner: Searching for temporary clutter...\x1b[0m".to_string()
}

/// The bytes of the entries that were removed.
pub open spec fn removed_bytes(entries: Seq<(u64, bool)>) -> nat
    decreases entries.len(),
{
    if entries.len() == 0 {
        0
    } else {
        removed_bytes(entries.drop_last()) + (if entries.last().1 {
            entries.last().0 as nat
        } else {
            0
        })
    }
}

proof fn lemma_removed_bytes_grow(entries: Seq<(u64, bool)>, n: int)
    requires
        0 <= n <= entries.len(),
    ensures
        removed_bytes(entries.take(n)) <= removed_bytes(entries),
    decreases entries.len() - n,
{
    if n < entries.len() {
        lemma_removed_bytes_grow(entries, n + 1);
        assert(entries.take(n + 1).drop_last() =~= entries.take(n));
    } else {
        assert(entries.take(n) =~= entries);
    }
}

/// The space that removing temporary files has freed: the sizes of the entries, as far as each
/// was removed. `None` where it is more than a `u64` counts.
pub fn freed_space(entries: &Vec<(u64, bool)>) -> (r: Option<u64>)
    ensures
        match r {
            Some(n) => n == removed_bytes(entries@),
            None => removed_bytes(entries@) > u64::MAX,
        },
{
    let mut total: u64 = 0;
    let mut i: usize = 0;
    assert(entries@.take(0) =~= Seq::empty());
    while i < entries.len()
        invariant
            i <= entries.len(),
            total == removed_bytes(entries@.take(i as int)),
        decreases entries.len() - i,
    {
        let (size, removed) = entries[i];
        proof {
            assert(entries@.take(i + 1).drop_last() =~= entries@.take(i as int));
            lemma_removed_bytes_grow(entries@, i + 1);
        }
        if removed {
            if size > u64::MAX - total {
                return None;
            }
            total += size;
        }
        i += 1;
    }
    assert(entries@.take(i as int) =~= entries@);
    Some(total)
}

/// The line behind the removal of temporary files.
pub fn clean_report(freed: u64) -> (r: String)
    ensures
        r@ == "\x1b[92mSuccess! ZOH has freed up "@ + mebibytes(freed)
            + " MB of temporary space.\x1b[0m"@,
{
    between(
        "\x1b[92mSuccess! ZOH has freed up ",
        mebibytes_text(freed).as_str(),
        " MB of temporary space.\x1b[0m",
    )
}

/// The lines of the list of commands.
pub open spec fn help_lines() -> Seq<Seq<char>> {
    seq![
        "ZOH: AI SYSTEM MONITOR - CLI HELP"@,
        "Commands:"@,
        "  scan         Quick system health and hardware summary"@,
        "  monitor      Real-time monitors (usage: monitor --cpu)"@,
        "  clean-temp   Purge system temporary files"@,
    ]
}

/// The list of commands, line by line.
pub fn help() -> (r: Vec<String>)
    ensures
        texts(r@) == help_lines(),
{
    let mut r: Vec<String> = Vec::new();
    r.push("ZOH: AI SYSTEM MONITOR - CLI HELP".to_string());
    r.push("Commands:".to_string());
    r.push("  scan         Quick system health and hardware summary".to_string());
    r.push("  monitor      Real-time monitors (usage: monitor --cpu)".to_string());
    r.push("  clean-temp   Purge system temporary files".to_string());
    assert(texts(r@) =~= help_lines());
    r
}

} // verus!
