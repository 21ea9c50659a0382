//! How processes are looked up.

#[allow(unused_imports)]
use crate::process::{
    name_of, process_name, process_run_time, process_with, run_time_of, ProcessEntry,
};
use vstd::prelude::*;

verus! {

proof fn lemma_process_with(table: Seq<ProcessEntry>, pid: u32, k: int)
    requires
        0 <= k <= table.len(),
        forall|i: int| 0 <= i < k ==> (#[trigger] table[i]).pid != pid,
        k < table.len() ==> table[k].pid == pid,
    ensures
        process_with(table, pid) == (if k < table.len() {
            Some(table[k]@)
        } else {
            None
        }),
    decreases table.len(),
{
    if table.len() > 0 && k > 0 {
        let rest = table.drop_first();
        assert(table[0].pid != pid);
        assert forall|i: int| 0 <= i < k - 1 implies (#[trigger] rest[i]).pid != pid by {
            assert(rest[i] == table[i + 1]);
        }
        if k < table.len() {
            assert(rest[k - 1] == table[k]);
        }
        lemma_process_with(rest, pid, k - 1);
    }
}

/// A process that the table lists has the name and the time that stand in the table, and a process
/// that it does not list is called `Unknown` and has been running for no time.
pub proof fn law_process_lookup(
    table: &Vec<ProcessEntry>,
    pid: u32,
    k: int,
    name: String,
    run_time: u64,
)
    requires
        call_ensures(name_of, (table, pid), name),
        call_ensures(run_time_of, (table, pid), run_time),
        0 <= k <= table@.len(),
        forall|i: int| 0 <= i < k ==> (#[trigger] table@[i]).pid != pid,
        k < table@.len() ==> table@[k].pid == pid,
    ensures
        k < table@.len() ==> name@ == table@[k].name@ && run_time == table@[k].run_time,
        k == table@.len() ==> name@ == "Unknown"@ && run_time == 0,
        process_name(table@, pid) == name@,
        process_run_time(table@, pid) == run_time,
{
    lemma_process_with(table@, pid, k);
}

} // verus!
