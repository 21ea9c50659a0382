//! Running processes, looked up by their number.

use vstd::prelude::*;

verus! {

/// A running process, as far as the listings of ports and servers read it.
pub struct ProcessEntry {
    pub pid: u32,
    pub name: String,
    /// For how many seconds the process has been running.
    pub run_time: u64,
}

/// The contents of a [`ProcessEntry`].
pub struct ProcessEntryView {
    pub pid: u32,
    pub name: Seq<char>,
    pub run_time: u64,
}

impl View for ProcessEntry {
    type V = ProcessEntryView;

    open spec fn view(&self) -> ProcessEntryView {
        ProcessEntryView { pid: self.pid, name: self.name@, run_time: self.run_time }
    }
}

/// The process with the given number; the first, where a table lists it more than once.
pub open spec fn process_with(table: Seq<ProcessEntry>, pid: u32) -> Option<ProcessEntryView>
    decreases table.len(),
{
    if table.len() == 0 {
        None
    } else if table[0].pid == pid {
        Some(table[0]@)
    } else {
        process_with(table.drop_first(), pid)
    }
}

/// The name of the process with the given number, or `Unknown`.
pub open spec fn process_name(table: Seq<ProcessEntry>, pid: u32) -> Seq<char> {
    match process_with(table, pid) {
        Some(p) => p.name,
        None => "Unknown"@,
    }
}

/// For how many seconds the process with the given number has been running; zero where there is
/// none.
pub open spec fn process_run_time(table: Seq<ProcessEntry>, pid: u32) -> u64 {
    match process_with(table, pid) {
        Some(p) => p.run_time,
        None => 0,
    }
}

/// Looks a process up by its number.
pub fn find_process(table: &Vec<ProcessEntry>, pid: u32) -> (r: Option<&ProcessEntry>)
    ensures
        process_with(table@, pid) == (match r {
            Some(p) => Some(p@),
            None => None,
        }),
{
    let mut i: usize = 0;
    assert(table@.skip(0) =~= table@);
    while i < table.len()
        invariant
            i <= table.len(),
            process_with(table@, pid) == process_with(table@.skip(i as int), pid),
        decreases table.len() - i,
    {
        assert(table@.skip(i as int)[0] == table@[i as int]);
        assert(table@.skip(i as int).drop_first() =~= table@.skip(i + 1));
        if table[i].pid == pid {
            return Some(&table[i]);
        }
        i += 1;
    }
    None
}

/// The name of the process with the given number, or `Unknown`.
pub fn name_of(table: &Vec<ProcessEntry>, pid: u32) -> (r: String)
    ensures
        r@ == process_name(table@, pid),
{
    match find_process(table, pid) {
        Some(p) => p.name.clone(),
        None => "Unknown".to_string(),
    }
}

/// For how many seconds the process with the given number has been running.
pub fn run_time_of(table: &Vec<ProcessEntry>, pid: u32) -> (r: u64)
    ensures
        r == process_run_time(table@, pid),
{
    match find_process(table, pid) {
        Some(p) => p.run_time,
        None => 0,
    }
}

} // verus!
