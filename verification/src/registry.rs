//! The registry of processes that this helper has started.
//!
//! Only a process that the helper started itself may be stopped through
//! it, so membership in this registry is what authorises a termination.
//! The registry is a plain value; the program that shares it between
//! threads keeps it behind one lock and calls these methods while it holds
//! that lock.

use std::collections::HashSet;
use vstd::prelude::*;

verus! {

/// The set of process ids that the helper has started.
pub struct ProcessRegistry {
    pids: HashSet<u32>,
}

impl View for ProcessRegistry {
    type V = Set<u32>;

    closed spec fn view(&self) -> Set<u32> {
        self.pids@
    }
}

impl ProcessRegistry {
    /// A registry that holds no process id.
    pub fn new() -> (registry: ProcessRegistry)
        ensures
            registry@ == Set::<u32>::empty(),
    {
        ProcessRegistry { pids: HashSet::new() }
    }

    /// Records that the helper started the process `pid`.
    pub fn record(&mut self, pid: u32)
        ensures
            final(self)@ == old(self)@.insert(pid),
    {
        self.pids.insert(pid);
    }

    /// Whether the helper started the process `pid`.
    pub fn contains(&self, pid: u32) -> (known: bool)
        ensures
            known == self@.contains(pid),
    {
        self.pids.contains(&pid)
    }

    /// Drops `pid` from the registry; the other ids stay.
    pub fn forget(&mut self, pid: u32)
        ensures
            final(self)@ == old(self)@.remove(pid),
    {
        self.pids.remove(&pid);
    }
}

} // verus!
