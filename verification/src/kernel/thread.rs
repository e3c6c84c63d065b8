//! Threads: the schedulable units of execution inside a process.

use vstd::prelude::*;

use crate::kernel::id::{next_after, IdGenerator};
use crate::kernel::process::ProcessId;
use crate::kernel::KernelResult;

verus! {

pub type ThreadId = u64;

/// Draws the next thread identifier from `ids`.
pub fn generate_tid(ids: &mut IdGenerator) -> (tid: ThreadId)
    ensures
        tid == old(ids).next,
        final(ids).next == next_after(old(ids).next),
{
    ids.next_id()
}

#[derive(Debug, Clone, Copy, PartialEq, Eq, Structural)]
pub enum ThreadState {
    /// Eligible for dispatch.
    Ready,
    /// Currently executing.
    Running,
    /// Waiting for an event.
    Blocked,
    /// Execution finished.
    Terminated,
}

#[derive(Debug, PartialEq, Eq, Structural)]
pub struct Thread {
    pub id: ThreadId,
    /// The owning process; a relation only, the process owns the thread.
    pub process_id: ProcessId,
    pub state: ThreadState,
}

impl Clone for Thread {
    fn clone(&self) -> (copy: Self)
        ensures
            copy == *self,
    {
        Thread { id: self.id, process_id: self.process_id, state: self.state }
    }
}

impl Thread {
    /// A thread of process `process_id`, ready to run.
    pub fn new(id: ThreadId, process_id: ProcessId) -> (thread: Self)
        ensures
            thread == (Thread { id, process_id, state: ThreadState::Ready }),
    {
        Thread { id, process_id, state: ThreadState::Ready }
    }
}

/// Thread lifecycle operations offered by a registry.
pub trait ThreadManagement {
    fn create_thread(&mut self, pid: ProcessId) -> KernelResult<ThreadId>;

    fn terminate_thread(&mut self, pid: ProcessId, tid: ThreadId) -> KernelResult<()>;

    fn sleep_thread(&mut self, pid: ProcessId, tid: ThreadId, duration_ms: u64) -> KernelResult<()>;

    fn get_thread_state(&self, pid: ProcessId, tid: ThreadId) -> KernelResult<ThreadState>;
}

} // verus!
