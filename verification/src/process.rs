//! Processes of a device, and sessions with them.

use vstd::prelude::*;

verus! {

/// A process that a device told of.
#[derive(Debug, PartialEq, Eq, Structural)]
pub struct Process {
    /// The address of the native process.
    pub process_ptr: usize,
}

impl Process {
    /// The process at this address.
    pub fn from_raw(process_ptr: usize) -> (process: Process)
        ensures
            process == (Process { process_ptr }),
    {
        Process { process_ptr }
    }
}

/// A session with a process.
#[derive(Debug, PartialEq, Eq, Structural)]
pub struct Session {
    /// The address of the native session.
    pub session_ptr: usize,
}

impl Session {
    /// The session at this address.
    pub fn from_raw(session_ptr: usize) -> (session: Session)
        ensures
            session == (Session { session_ptr }),
    {
        Session { session_ptr }
    }
}

/// A list of processes that is being fetched from the native library, one
/// process after the other.
pub struct ProcessListing {
    size: i32,
    processes: Vec<Process>,
}

impl ProcessListing {
    /// How many processes the native list holds.
    pub closed spec fn size(self) -> int {
        self.size as int
    }

    /// The processes that were fetched.
    pub closed spec fn fetched(self) -> Seq<Process> {
        self.processes@
    }

    /// No more was fetched than the native list holds.
    pub open spec fn wf(self) -> bool {
        self.fetched().len() <= self.size()
    }

    /// A native list of this size, of which nothing was fetched.
    pub fn new(size: i32) -> (listing: ProcessListing)
        requires
            size >= 0,
        ensures
            listing.wf(),
            listing.size() == size,
            listing.fetched() == Seq::<Process>::empty(),
    {
        ProcessListing { size, processes: Vec::with_capacity(size as usize) }
    }

    /// The index of the process to fetch next, `None` when all were fetched.
    pub fn next_index(&self) -> (index: Option<i32>)
        requires
            self.wf(),
        ensures
            match index {
                Some(i) => i == self.fetched().len() && i < self.size(),
                None => self.fetched().len() == self.size(),
            },
    {
        let fetched: usize = self.processes.len();
        if fetched < self.size as usize {
            Some(fetched as i32)
        } else {
            None
        }
    }

    /// Takes the address of the process at [`ProcessListing::next_index`].
    pub fn accept(&mut self, process_ptr: usize)
        requires
            old(self).wf(),
            old(self).fetched().len() < old(self).size(),
        ensures
            final(self).wf(),
            final(self).size() == old(self).size(),
            final(self).fetched() == old(self).fetched().push(Process { process_ptr }),
    {
        self.processes.push(Process::from_raw(process_ptr));
    }

    /// All processes, once all were fetched.
    pub fn into_processes(self) -> (processes: Vec<Process>)
        requires
            self.wf(),
            self.fetched().len() == self.size(),
        ensures
            processes@ == self.fetched(),
    {
        self.processes
    }
}

} // verus!
