//! The process table of the machine, and what the helper looks for in it.

use sysinfo::{PidExt, ProcessExt, System, SystemExt};
use vstd::prelude::*;

use crate::text::same_text;

verus! {

/// The name under which the game shows in the process table. The helper
/// lives as long as a process of this name does.
pub const PARENT_PROCESS_NAME: &'static str = "Darktide.exe";

/// One process of the process table.
pub struct ProcessEntry {
    /// The id of the process.
    pub pid: u32,
    /// The name of the process.
    pub name: String,
}

/// Takes a fresh view of the process table with `System::new_all`,
/// `refresh_all` and `processes` of the `sysinfo` crate, and hands out the
/// id (`as_u32`) and the name (`name`) of each process found. What the
/// table holds is the machine's affair: the contract claims nothing of it,
/// neither which processes are listed nor in what order. These calls
/// report no error: where the system refuses the enumeration they come
/// back with no process at all.
#[verifier::external_body]
pub(crate) fn scan_processes() -> (entries: Vec<ProcessEntry>) {
    let mut system = System::new_all();
    system.refresh_all();
    system.processes().iter().map(
        |(pid, process)| ProcessEntry { pid: pid.as_u32(), name: process.name().to_owned() },
    ).collect()
}

/// Whether a process named `name` is among `entries`.
pub open spec fn names_process(entries: Seq<ProcessEntry>, name: Seq<char>) -> bool {
    exists|i: int| 0 <= i < entries.len() && (#[trigger] entries[i]).name@ == name
}

/// Whether the process `pid` is among `entries`.
pub open spec fn lists_process(entries: Seq<ProcessEntry>, pid: u32) -> bool {
    exists|i: int| 0 <= i < entries.len() && (#[trigger] entries[i]).pid == pid
}

/// Whether a view of the process table shows that no process named `name`
/// runs: it holds a process, and none of that name. A view without any
/// entry shows nothing. It is what a scan that failed leaves, and never
/// what one that succeeded finds, for the helper itself is a process.
pub open spec fn shows_absence(entries: Seq<ProcessEntry>, name: Seq<char>) -> bool {
    entries.len() > 0 && !names_process(entries, name)
}

/// Searches a view of the process table for a process named `name`.
pub fn has_process_named(entries: &Vec<ProcessEntry>, name: &str) -> (found: bool)
    ensures
        found == names_process(entries@, name@),
{
    let mut i: usize = 0;
    while i < entries.len()
        invariant
            i <= entries.len(),
            forall|k: int| 0 <= k < i ==> (#[trigger] entries@[k]).name@ != name@,
        decreases entries.len() - i,
    {
        if same_text(entries[i].name.as_str(), name) {
            return true;
        }
        i += 1;
    }
    false
}

/// Searches a view of the process table for the process `pid`.
pub fn has_process_id(entries: &Vec<ProcessEntry>, pid: u32) -> (found: bool)
    ensures
        found == lists_process(entries@, pid),
{
    let mut i: usize = 0;
    while i < entries.len()
        invariant
            i <= entries.len(),
            forall|k: int| 0 <= k < i ==> (#[trigger] entries@[k]).pid != pid,
        decreases entries.len() - i,
    {
        if entries[i].pid == pid {
            return true;
        }
        i += 1;
    }
    false
}

/// Whether a process named `name` may be running, by a view of the
/// process table: whether the view does not show its absence. So the
/// answer is no only for a view that holds processes and lacks the name,
/// and yes for a view that holds the name as for one that holds nothing.
pub fn may_be_running(entries: &Vec<ProcessEntry>, name: &str) -> (running: bool)
    ensures
        running == !shows_absence(entries@, name@),
{
    entries.len() == 0 || has_process_named(entries, name)
}

/// Whether the game is running now, as far as a fresh view of the process
/// table tells: the answer is no only after a scan that succeeded and
/// did not find a process named [`PARENT_PROCESS_NAME`]. The view is the
/// machine's; [`may_be_running`] says how it is read.
pub fn is_darktide_running() -> bool {
    let entries = scan_processes();
    may_be_running(&entries, PARENT_PROCESS_NAME)
}

/// Whether the process `pid` is running now: whether a fresh view of the
/// process table holds it. The answer is the machine's;
/// [`has_process_id`] says how it is read off the table.
pub fn is_process_running(pid: u32) -> bool {
    let entries = scan_processes();
    has_process_id(&entries, pid)
}

} // verus!
