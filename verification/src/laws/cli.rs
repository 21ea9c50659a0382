//! What the command line asks for and what is printed for it.

#[allow(unused_imports)]
use crate::cli::{
    clean_heading, clean_report, freed_space, handle_cli_commands, help, monitor_heading,
    monitor_line, monitor_usage, removed_bytes, scan_report, CliCommand, ScanInfo,
};
#[allow(unused_imports)]
use crate::number::decimal;
#[allow(unused_imports)]
use crate::text::texts;
use vstd::prelude::*;

verus! {

/// Whether one of the arguments is the given text.
pub open spec fn has_argument(args: Seq<String>, wanted: Seq<char>) -> bool {
    exists|i: int| 0 <= i < args.len() && (#[trigger] args[i])@ == wanted
}

/// The first argument behind the name of the program decides, and no other does but `--cpu` for
/// the monitor; anything that is no command opens the window.
pub proof fn law_command_line(args: &Vec<String>, r: CliCommand)
    requires
        call_ensures(handle_cli_commands, (args,), r),
    ensures
        args@.len() < 2 ==> r is Window,
        args@.len() >= 2 ==> {
            let command = args@[1]@;
            &&& r is Scan <==> command == "scan"@
            &&& r is MonitorCpu <==> command == "monitor"@ && has_argument(args@, "--cpu"@)
            &&& r is MonitorUsage <==> command == "monitor"@ && !has_argument(args@, "--cpu"@)
            &&& r is CleanTemp <==> command == "clean-temp"@
            &&& r is Help <==> command == "help"@ || command == "--help"@ || command == "-h"@
        },
{
    reveal_strlit("scan");
    reveal_strlit("monitor");
    reveal_strlit("clean-temp");
    reveal_strlit("help");
    reveal_strlit("--help");
    reveal_strlit("-h");
    let ts = texts(args@);
    assert("scan"@[0] == 's' && "help"@[0] == 'h');
    if args@.len() >= 2 {
        assert(ts[1] == args@[1]@);
        if ts.contains("--cpu"@) {
            let i = choose|i: int| 0 <= i < ts.len() && ts[i] == "--cpu"@;
            assert(args@[i]@ == "--cpu"@);
        }
        if has_argument(args@, "--cpu"@) {
            let i = choose|i: int| 0 <= i < args@.len() && (#[trigger] args@[i])@ == "--cpu"@;
            assert(ts[i] == "--cpu"@);
        }
    }
}

/// A text that may be missing: `s` is that text, or empty.
pub open spec fn is_text_of(s: Seq<char>, value: Option<String>) -> bool {
    match value {
        Some(t) => s == t@,
        None => s.len() == 0,
    }
}

/// The summary of the system tells each reading behind its label: memory in mebibytes, rounded
/// down, and the time since the start in whole hours and the minutes beyond them.
pub proof fn law_scan_report(
    info: &ScanInfo,
    r: Vec<String>,
    names: (Seq<char>, Seq<char>, Seq<char>, Seq<char>),
    memory: (nat, nat),
    swap: (nat, nat),
    hours: nat,
    minutes: nat,
)
    requires
        call_ensures(scan_report, (info,), r),
        is_text_of(names.0, info.name),
        is_text_of(names.1, info.version),
        is_text_of(names.2, info.kernel),
        is_text_of(names.3, info.host),
        memory.0 * 1048576 <= info.total_memory < (memory.0 + 1) * 1048576,
        memory.1 * 1048576 <= info.used_memory < (memory.1 + 1) * 1048576,
        swap.0 * 1048576 <= info.total_swap < (swap.0 + 1) * 1048576,
        swap.1 * 1048576 <= info.used_swap < (swap.1 + 1) * 1048576,
        minutes < 60,
        hours * 3600 + minutes * 60 <= info.uptime < hours * 3600 + minutes * 60 + 60,
    ensures
        r@.len() == 15,
        r@[0]@ == "\x1b[93m--- ZOH: AI SYSTEM SCAN (CLI MODE) ---\x1b[0m"@,
        r@[1]@ == "System Name:    "@ + names.0,
        r@[2]@ == "System Version: "@ + names.1,
        r@[3]@ == "Kernel Version: "@ + names.2,
        r@[4]@ == "Host Name:      "@ + names.3,
        r@[5]@ == "Arch:           "@ + info.arch@,
        r@[6]@ == ""@,
        r@[7]@ == "CPU Model:      "@ + info.cpu_model@,
        r@[8]@ == "Global Usage:   "@ + info.usage@ + "%"@,
        r@[9]@ == "Total Memory:   "@ + decimal(memory.0) + " MB"@,
        r@[10]@ == "Used Memory:    "@ + decimal(memory.1) + " MB"@,
        r@[11]@ == "Swap:           "@ + decimal(swap.1) + " / "@ + decimal(swap.0) + " MB"@,
        r@[12]@ == ""@,
        r@[13]@ == "Uptime:         "@ + decimal(hours) + "h "@ + decimal(minutes) + "m"@,
        r@[14]@ == "\x1b[93m--------------------------------------\x1b[0m"@,
{
    let ts = texts(r@);
    assert(ts.len() == r@.len());
    assert(forall|i: int| 0 <= i < r@.len() ==> ts[i] == (#[trigger] r@[i])@);
    if info.name is None {
        assert(names.0 =~= Seq::empty());
    }
    if info.version is None {
        assert(names.1 =~= Seq::empty());
    }
    if info.kernel is None {
        assert(names.2 =~= Seq::empty());
    }
    if info.host is None {
        assert(names.3 =~= Seq::empty());
    }
    assert(info.total_memory / 1024 / 1024 == memory.0);
    assert(info.used_memory / 1024 / 1024 == memory.1);
    assert(info.total_swap / 1024 / 1024 == swap.0);
    assert(info.used_swap / 1024 / 1024 == swap.1);
    assert(info.uptime / 3600 == hours);
    assert(info.uptime % 3600 / 60 == minutes);
}

/// The bar of the monitor is as long as it is asked for, and with the spaces behind it as wide as
/// fifty characters, or as the bar where that is longer.
pub proof fn law_monitor_line(length: usize, usage: &str, r: String, bar: Seq<char>)
    requires
        call_ensures(monitor_line, (length, usage), r),
        bar.len() == (if length < 50 {
            50
        } else {
            length as int
        }),
        forall|i: int|
            0 <= i < bar.len() ==> (#[trigger] bar[i]) == (if i < length {
                '='
            } else {
                ' '
            }),
    ensures
        r@ == "\rCPU Usage: \x1b[92m["@ + bar + "]\x1b[0m "@ + usage@ + "%   "@,
{
    assert(crate::cli::bar_of(length as nat) =~= bar);
}

/// The fixed lines.
pub proof fn law_fixed_lines(heading: String, usage: String, clean: String, lines: Vec<String>)
    requires
        call_ensures(monitor_heading, (), heading),
        call_ensures(monitor_usage, (), usage),
        call_ensures(clean_heading, (), clean),
        call_ensures(help, (), lines),
    ensures
        heading@ == "\x1b[93mZOH Active Monitor: CPU Usage (Ctrl+C to stop)\x1b[0m"@,
        usage@ == "Usage: zoh monitor --cpu"@,
        clean@ == "\x1b[91mZOH Cleaner: Searching for temporary clutter...\x1b[0m"@,
        lines@.len() == 5,
        lines@[0]@ == "ZOH: AI SYSTEM MONITOR - CLI HELP"@,
        lines@[1]@ == "Commands:"@,
        lines@[2]@ == "  scan         Quick system health and hardware summary"@,
        lines@[3]@ == "  monitor      Real-time monitors (usage: monitor --cpu)"@,
        lines@[4]@ == "  clean-temp   Purge system temporary files"@,
{
    let ts = texts(lines@);
    assert(ts.len() == lines@.len());
    assert(forall|i: int| 0 <= i < lines@.len() ==> ts[i] == (#[trigger] lines@[i])@);
}

proof fn lemma_removed_concat(a: Seq<(u64, bool)>, b: Seq<(u64, bool)>)
    ensures
        removed_bytes(a + b) == removed_bytes(a) + removed_bytes(b),
    decreases b.len(),
{
    if b.len() == 0 {
        assert(a + b =~= a);
    } else {
        lemma_removed_concat(a, b.drop_last());
        assert((a + b).drop_last() =~= a + b.drop_last());
    }
}

/// The space freed by two rounds is what each has freed.
pub proof fn law_freed_space_adds_up(
    entries: (&Vec<(u64, bool)>, &Vec<(u64, bool)>, &Vec<(u64, bool)>),
    r: (Option<u64>, Option<u64>, Option<u64>),
)
    requires
        call_ensures(freed_space, (entries.0,), r.0),
        call_ensures(freed_space, (entries.1,), r.1),
        call_ensures(freed_space, (entries.2,), r.2),
        entries.2@ == entries.0@ + entries.1@,
    ensures
        r.0 is None || r.1 is None ==> r.2 is None,
        (r.0 is Some && r.1 is Some) ==> r.2 == (if r.0->0 + r.1->0 <= u64::MAX {
            Some((r.0->0 + r.1->0) as u64)
        } else {
            None
        }),
{
    lemma_removed_concat(entries.0@, entries.1@);
}

/// An entry frees its size where it was removed, and nothing where it was not.
pub proof fn law_freed_entry(entries: &Vec<(u64, bool)>, r: Option<u64>)
    requires
        call_ensures(freed_space, (entries,), r),
        entries@.len() <= 1,
    ensures
        entries@.len() == 1 && entries@[0].1 ==> r == Some(entries@[0].0),
        entries@.len() == 0 || !entries@[0].1 ==> r == Some(0u64),
{
    if entries@.len() == 1 {
        assert(entries@.drop_last() =~= Seq::empty());
        assert(removed_bytes(entries@.drop_last()) == 0);
        assert(entries@.last() == entries@[0]);
    }
}

/// The space that was freed is told in mebibytes, rounded down.
pub proof fn law_clean_report(freed: u64, r: String, mebibytes: nat)
    requires
        call_ensures(clean_report, (freed,), r),
        mebibytes * 1048576 <= freed < (mebibytes + 1) * 1048576,
    ensures
        r@ == "\x1b[92mSuccess! ZOH has freed up "@ + decimal(mebibytes)
            + " MB of temporary space.\x1b[0m"@,
{
    assert(freed / 1024 / 1024 == mebibytes);
}

} // verus!
