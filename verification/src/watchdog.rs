//! The watchdog that ends the helper when the game is gone.
//!
//! Once a second the helper looks for the game in the process table. The
//! first look that succeeds and does not find it ends the helper, at once
//! and for good. A look that fails proves nothing and changes nothing.

use vstd::prelude::*;

use crate::processes::{
    has_process_named, names_process, scan_processes, shows_absence, ProcessEntry,
    PARENT_PROCESS_NAME,
};

verus! {

/// The seconds between two looks at the process table.
pub const POLL_INTERVAL_SECONDS: u64 = 1;

/// The exit code with which the helper ends when the game is gone.
pub const EXIT_PARENT_GONE: i32 = 1;

/// The state of the watchdog.
#[derive(Clone, Copy, Debug, PartialEq, Eq)]
pub enum WatchdogState {
    /// The game has not been seen to be gone.
    Running,
    /// The game is gone and the helper ends.
    Terminating,
}

/// What one look at the process table showed.
#[derive(Clone, Copy, Debug, PartialEq, Eq)]
pub enum Scan {
    /// The table was read and holds the game.
    Present,
    /// The table was read and does not hold the game.
    Absent,
    /// The table could not be read.
    Failed,
}

/// What the watchdog does next.
#[derive(Clone, Copy, Debug, PartialEq, Eq)]
pub enum WatchdogAction {
    /// Sleep for `seconds`, then look again.
    Wait { seconds: u64 },
    /// End the whole helper with exit code `code`, without delay.
    Exit { code: i32 },
}

/// The state after a look: terminating stays terminating, and running
/// turns to terminating exactly when the look found the game absent.
pub open spec fn next_state(state: WatchdogState, scan: Scan) -> WatchdogState {
    if state is Terminating || scan is Absent {
        WatchdogState::Terminating
    } else {
        WatchdogState::Running
    }
}

/// What the watchdog does in a state.
pub open spec fn action_in(state: WatchdogState) -> WatchdogAction {
    match state {
        WatchdogState::Running => WatchdogAction::Wait { seconds: POLL_INTERVAL_SECONDS },
        WatchdogState::Terminating => WatchdogAction::Exit { code: EXIT_PARENT_GONE },
    }
}

/// The state after a series of looks, one after the other.
pub open spec fn state_after(state: WatchdogState, scans: Seq<Scan>) -> WatchdogState
    decreases scans.len(),
{
    if scans.len() == 0 {
        state
    } else {
        next_state(state_after(state, scans.drop_last()), scans.last())
    }
}

/// Takes the watchdog from one look to the next: the new state, and what
/// to do in it.
pub fn watchdog_step(state: WatchdogState, scan: Scan) -> (next: (WatchdogState, WatchdogAction))
    ensures
        next.0 == next_state(state, scan),
        next.1 == action_in(next.0),
{
    let gone = match state {
        WatchdogState::Terminating => true,
        WatchdogState::Running => match scan {
            Scan::Absent => true,
            Scan::Present => false,
            Scan::Failed => false,
        },
    };
    if gone {
        (WatchdogState::Terminating, WatchdogAction::Exit { code: EXIT_PARENT_GONE })
    } else {
        (WatchdogState::Running, WatchdogAction::Wait { seconds: POLL_INTERVAL_SECONDS })
    }
}

/// What a view of the process table shows of the game. A view without
/// any entry is a scan that failed: a scan that succeeds finds at least
/// the helper itself. Of the others, the one that holds a process named
/// [`PARENT_PROCESS_NAME`] shows the game present, and the one that holds
/// none shows it absent.
pub open spec fn scan_result(entries: Seq<ProcessEntry>) -> Scan {
    if entries.len() == 0 {
        Scan::Failed
    } else if names_process(entries, PARENT_PROCESS_NAME@) {
        Scan::Present
    } else {
        Scan::Absent
    }
}

/// Reads a view of the process table, as `scan_result` says.
pub fn scan_of(entries: &Vec<ProcessEntry>) -> (scan: Scan)
    ensures
        scan == scan_result(entries@),
{
    if entries.len() == 0 {
        Scan::Failed
    } else if has_process_named(entries, PARENT_PROCESS_NAME) {
        Scan::Present
    } else {
        Scan::Absent
    }
}

/// Looks for the game in a fresh view of the process table. The view is
/// the machine's, and so is the outcome, which may be any of the three;
/// [`scan_of`] says how the view is read.
pub fn scan_for_parent() -> Scan {
    let entries = scan_processes();
    scan_of(&entries)
}

/// A view shows the game absent only if it is a clean one that lacks the
/// game: a scan that failed is never read as absence.
pub proof fn lemma_absent_only_after_clean_scan(entries: Seq<ProcessEntry>)
    ensures
        scan_result(entries) is Absent <==> shows_absence(entries, PARENT_PROCESS_NAME@),
        entries.len() == 0 ==> scan_result(entries) is Failed,
{
}

/// A watchdog that starts running ends the helper exactly if one of its
/// looks found the game absent: looks that found it, and looks that
/// failed, never do.
pub proof fn lemma_terminates_iff_absence_seen(scans: Seq<Scan>)
    ensures
        state_after(WatchdogState::Running, scans) is Terminating <==> exists|i: int|
            0 <= i < scans.len() && scans[i] is Absent,
    decreases scans.len(),
{
    if scans.len() > 0 {
        let before = scans.drop_last();
        lemma_terminates_iff_absence_seen(before);
        if state_after(WatchdogState::Running, scans) is Terminating {
            if scans.last() is Absent {
                assert(scans[scans.len() - 1] is Absent);
            } else {
                let i = choose|i: int| 0 <= i < before.len() && before[i] is Absent;
                assert(scans[i] is Absent);
            }
        } else {
            assert forall|i: int| 0 <= i < scans.len() implies !(scans[i] is Absent) by {
                if i < before.len() {
                    assert(before[i] == scans[i]);
                }
            }
        }
    }
}

/// Once the watchdog is terminating, no look brings it back.
pub proof fn lemma_terminating_is_final(scans: Seq<Scan>)
    ensures
        state_after(WatchdogState::Terminating, scans) is Terminating,
    decreases scans.len(),
{
    if scans.len() > 0 {
        lemma_terminating_is_final(scans.drop_last());
    }
}

} // verus!
