//! Processes and the registry that owns them.

use std::collections::HashMap;
use vstd::prelude::*;

use crate::kernel::id::{next_after, IdGenerator};
use crate::kernel::ipc::{oldest, Message, MessagePassing, SystemMessageBus};
use crate::kernel::registry::{
    lemma_create_process_wf, lemma_create_thread_wf, lemma_filter_queue, lemma_initial_wf,
    lemma_receive_message_wf, lemma_send_message_wf, lemma_sleep_thread_wf,
    lemma_terminate_process_wf, lemma_terminate_thread_wf, not_among, RegistryView,
};
use crate::kernel::scheduler::{takes_out_first, RoundRobinScheduler, Scheduler};
use crate::kernel::thread::{generate_tid, Thread, ThreadId, ThreadManagement, ThreadState};
use crate::kernel::{is_internal_error, KernelError, KernelResult};

verus! {

pub type ProcessId = u64;

/// Draws the next process identifier from `ids`.
pub fn generate_pid(ids: &mut IdGenerator) -> (pid: ProcessId)
    ensures
        pid == old(ids).next,
        final(ids).next == next_after(old(ids).next),
{
    ids.next_id()
}

#[derive(Debug, Clone, Copy, PartialEq, Eq, Structural)]
pub enum ProcessState {
    New,
    Ready,
    Running,
    Waiting,
    Terminated,
}

#[derive(Debug)]
pub struct Process {
    pub id: ProcessId,
    pub state: ProcessState,
    /// The threads this process owns, by identifier.
    pub threads: HashMap<ThreadId, Thread>,
}

/// A process with its threads as a mathematical map.
pub struct ProcessView {
    pub id: ProcessId,
    pub state: ProcessState,
    pub threads: Map<ThreadId, Thread>,
}

impl ProcessView {
    /// A process as it is right after creation: new, without threads.
    pub open spec fn created(id: ProcessId) -> ProcessView {
        ProcessView { id, state: ProcessState::New, threads: Map::empty() }
    }

    /// This process with a ready thread `tid` added.
    pub open spec fn with_thread(self, tid: ThreadId) -> ProcessView {
        ProcessView {
            threads: self.threads.insert(
                tid,
                Thread { id: tid, process_id: self.id, state: ThreadState::Ready },
            ),
            ..self
        }
    }

    /// This process without thread `tid`.
    pub open spec fn without_thread(self, tid: ThreadId) -> ProcessView {
        ProcessView { threads: self.threads.remove(tid), ..self }
    }

    /// This process with thread `tid`, which it owns, moved to `state`.
    pub open spec fn with_thread_state(self, tid: ThreadId, state: ThreadState) -> ProcessView {
        ProcessView {
            threads: self.threads.insert(tid, Thread { state, ..self.threads[tid] }),
            ..self
        }
    }
}

impl View for Process {
    type V = ProcessView;

    open spec fn view(&self) -> ProcessView {
        ProcessView { id: self.id, state: self.state, threads: self.threads@ }
    }
}

impl Clone for Process {
    fn clone(&self) -> (copy: Self)
        ensures
            copy@ == self@,
    {
        Process { id: self.id, state: self.state, threads: self.threads.clone() }
    }
}

impl Process {
    /// A new process without threads.
    pub fn new(id: ProcessId) -> (process: Self)
        ensures
            process@ == ProcessView::created(id),
    {
        Process { id, state: ProcessState::New, threads: HashMap::new() }
    }

    /// Draws a thread identifier from `tids` and adds a ready thread under
    /// it. The identifier is consumed even when it turns out to be taken, in
    /// which case the process stays as it is.
    pub fn create_new_thread(&mut self, tids: &mut IdGenerator) -> (result: KernelResult<ThreadId>)
        ensures
            final(tids).next == next_after(old(tids).next),
            match result {
                Ok(tid) => {
                    &&& tid == old(tids).next
                    &&& !old(self)@.threads.contains_key(tid)
                    &&& final(self)@ == old(self)@.with_thread(tid)
                },
                Err(error) => {
                    &&& old(self)@.threads.contains_key(old(tids).next)
                    &&& is_internal_error(error, "Thread ID collision within process"@)
                    &&& final(self)@ == old(self)@
                },
            },
    {
        let new_tid = generate_tid(tids);
        if self.threads.contains_key(&new_tid) {
            return Err(KernelError::Other("Thread ID collision within process".to_string()));
        }
        let new_thread = Thread::new(new_tid, self.id);
        self.threads.insert(new_tid, new_thread);
        Ok(new_tid)
    }

    /// Removes thread `tid`; `NotFound` if this process does not own it.
    pub fn terminate_existing_thread(&mut self, tid: ThreadId) -> (result: KernelResult<()>)
        ensures
            match result {
                Ok(_) => {
                    &&& old(self)@.threads.contains_key(tid)
                    &&& final(self)@ == old(self)@.without_thread(tid)
                },
                Err(error) => {
                    &&& !old(self)@.threads.contains_key(tid)
                    &&& error == KernelError::NotFound
                    &&& final(self)@ == old(self)@
                },
            },
    {
        if self.threads.remove(&tid).is_some() {
            Ok(())
        } else {
            assert(self@.threads =~= old(self)@.threads);
            Err(KernelError::NotFound)
        }
    }

    /// The state of thread `tid`; `NotFound` if this process does not own
    /// it.
    pub fn get_thread_state(&self, tid: ThreadId) -> (result: KernelResult<ThreadState>)
        ensures
            match result {
                Ok(state) => self@.threads.contains_key(tid) && state == self@.threads[tid].state,
                Err(error) => !self@.threads.contains_key(tid) && error == KernelError::NotFound,
            },
    {
        match self.threads.get(&tid) {
            Some(thread) => Ok(thread.state),
            None => Err(KernelError::NotFound),
        }
    }

    /// Moves thread `tid` to `new_state`; `NotFound` if this process does
    /// not own it.
    pub fn set_thread_state(&mut self, tid: ThreadId, new_state: ThreadState) -> (result:
        KernelResult<()>)
        ensures
            match result {
                Ok(_) => {
                    &&& old(self)@.threads.contains_key(tid)
                    &&& final(self)@ == old(self)@.with_thread_state(tid, new_state)
                },
                Err(error) => {
                    &&& !old(self)@.threads.contains_key(tid)
                    &&& error == KernelError::NotFound
                    &&& final(self)@ == old(self)@
                },
            },
    {
        match self.threads.remove(&tid) {
            Some(mut thread) => {
                thread.state = new_state;
                self.threads.insert(tid, thread);
                assert(self@.threads =~= old(self)@.with_thread_state(tid, new_state).threads);
                Ok(())
            },
            None => {
                assert(self@.threads =~= old(self)@.threads);
                Err(KernelError::NotFound)
            },
        }
    }
}

/// Process lifecycle operations offered by a registry.
pub trait ProcessManagement {
    fn create_process(&mut self) -> KernelResult<ProcessId>;

    fn terminate_process(&mut self, pid: ProcessId) -> KernelResult<()>;

    fn get_process_state(&self, pid: ProcessId) -> KernelResult<ProcessState>;
}

/// The registry: owns every process, the scheduler and the message bus, and
/// is the one place where lifecycle transitions happen.
#[derive(Debug)]
pub struct SimpleProcessManager {
    /// The live processes, by identifier.
    pub processes: HashMap<ProcessId, Process>,
    /// Decides which ready thread runs next.
    pub scheduler: RoundRobinScheduler,
    /// Carries messages between processes.
    pub ipc_bus: SystemMessageBus,
    /// Source of process identifiers.
    pub pids: IdGenerator,
    /// Source of thread identifiers, shared by all processes.
    pub tids: IdGenerator,
}

impl View for SimpleProcessManager {
    type V = RegistryView;

    open spec fn view(&self) -> RegistryView {
        RegistryView {
            processes: self.processes@.map_values(|process: Process| process@),
            ready: self.scheduler@,
            mailboxes: self.ipc_bus@,
            next_pid: self.pids.next,
            next_tid: self.tids.next,
        }
    }
}

impl SimpleProcessManager {
    /// The registry invariant holds of this manager.
    pub open spec fn wf(&self) -> bool {
        self@.wf()
    }

    /// An empty registry whose identifiers start at 1.
    pub fn new() -> (manager: Self)
        ensures
            manager@ == RegistryView::initial(),
            manager.wf(),
    {
        let manager = SimpleProcessManager {
            processes: HashMap::new(),
            scheduler: RoundRobinScheduler::new(),
            ipc_bus: SystemMessageBus::new(),
            pids: IdGenerator::new(),
            tids: IdGenerator::new(),
        };
        proof {
            assert(manager@.processes =~= Map::empty());
            lemma_initial_wf();
        }
        manager
    }

    /// Files `process` under `pid`, in place of whatever was there.
    fn file_process(&mut self, pid: ProcessId, process: Process)
        ensures
            final(self)@ == (RegistryView {
                processes: old(self)@.processes.insert(pid, process@),
                ..old(self)@
            }),
    {
        self.processes.insert(pid, process);
        assert(self@.processes =~= old(self)@.processes.insert(pid, process@));
    }

    /// Takes the process filed under `pid` out of the table.
    fn take_process(&mut self, pid: ProcessId) -> (taken: Option<Process>)
        ensures
            final(self)@ == (RegistryView {
                processes: old(self)@.processes.remove(pid),
                ..old(self)@
            }),
            match taken {
                Some(process) => old(self)@.processes.contains_key(pid) && process@
                    == old(self)@.processes[pid],
                None => !old(self)@.processes.contains_key(pid),
            },
    {
        let taken = self.processes.remove(&pid);
        assert(self@.processes =~= old(self)@.processes.remove(pid));
        taken
    }

    /// Takes every thread that `process` owns out of the ready queue and
    /// keeps the others in order.
    fn withdraw_threads_of(&mut self, process: &Process)
        ensures
            final(self)@ == (RegistryView {
                ready: old(self)@.ready.filter(not_among(process@.threads)),
                ..old(self)@
            }),
    {
        let ghost queue = self.scheduler@;
        let ghost keep = not_among(process@.threads);
        let count = self.scheduler.ready_queue.len();
        let mut seen: usize = 0;
        proof {
            reveal(Seq::filter);
            assert(queue.subrange(0, queue.len() as int) =~= queue);
        }
        while seen < count
            invariant
                seen <= count,
                count == queue.len(),
                keep == not_among(process@.threads),
                self.scheduler@ == queue.subrange(seen as int, count as int) + queue.subrange(
                    0,
                    seen as int,
                ).filter(keep),
                self.processes == old(self).processes,
                self.ipc_bus == old(self).ipc_bus,
                self.pids == old(self).pids,
                self.tids == old(self).tids,
            decreases count - seen,
        {
            let front = self.scheduler.ready_queue.pop_front();
            proof {
                assert(queue.subrange(0, seen + 1) =~= queue.subrange(0, seen as int).push(
                    queue[seen as int],
                ));
                queue.subrange(0, seen as int).lemma_filter_push(queue[seen as int], keep);
            }
            if let Some(tid) = front {
                if !process.threads.contains_key(&tid) {
                    self.scheduler.ready_queue.push_back(tid);
                }
            }
            assert(self.scheduler@ =~= queue.subrange(seen + 1, count as int) + queue.subrange(
                0,
                seen + 1,
            ).filter(keep));
            seen += 1;
        }
    }
}

impl ProcessManagement for SimpleProcessManager {
    /// Creates a process in state `New` under the next process identifier.
    /// Fails only if a live process already has that identifier, which the
    /// invariant rules out.
    fn create_process(&mut self) -> (result: KernelResult<ProcessId>)
        ensures
            final(self)@ == old(self)@.create_process(),
            match result {
                Ok(pid) => old(self)@.created_pid() == Some(pid),
                Err(error) => old(self)@.created_pid() is None && is_internal_error(
                    error,
                    "PID collision"@,
                ),
            },
            old(self).wf() ==> result is Ok,
            old(self).wf() && old(self)@.next_pid < u64::MAX ==> final(self).wf(),
    {
        proof {
            if self.wf() {
                lemma_create_process_wf(self@);
            }
        }
        let new_pid = generate_pid(&mut self.pids);
        let new_process = Process::new(new_pid);
        if self.processes.contains_key(&new_pid) {
            return Err(KernelError::Other("PID collision".to_string()));
        }
        self.file_process(new_pid, new_process);
        Ok(new_pid)
    }

    /// Removes process `pid` with all its threads and takes those threads
    /// out of the ready queue. `NotFound` if `pid` is not live.
    fn terminate_process(&mut self, pid: ProcessId) -> (result: KernelResult<()>)
        ensures
            final(self)@ == old(self)@.terminate_process(pid),
            match result {
                Ok(_) => old(self)@.processes.contains_key(pid),
                Err(error) => !old(self)@.processes.contains_key(pid) && error
                    == KernelError::NotFound,
            },
            !final(self)@.processes.contains_key(pid),
            forall|tid: ThreadId| #[trigger]
                final(self)@.ready.contains(tid) <==> old(self)@.ready.contains(tid) && !old(
                    self,
                )@.owns(pid, tid),
            old(self).wf() ==> final(self).wf(),
    {
        proof {
            if self.wf() {
                lemma_terminate_process_wf(self@, pid);
            }
            if self@.processes.contains_key(pid) {
                lemma_filter_queue(self@.ready, not_among(self@.processes[pid].threads));
            }
        }
        match self.take_process(pid) {
            Some(process) => {
                self.withdraw_threads_of(&process);
                Ok(())
            },
            None => {
                assert(self@.processes =~= old(self)@.processes);
                Err(KernelError::NotFound)
            },
        }
    }

    /// The state of process `pid`; `NotFound` if `pid` is not live.
    fn get_process_state(&self, pid: ProcessId) -> (result: KernelResult<ProcessState>)
        ensures
            match self@.process_state(pid) {
                Some(state) => result == Ok::<ProcessState, KernelError>(state),
                None => result == Err::<ProcessState, KernelError>(KernelError::NotFound),
            },
    {
        match self.processes.get(&pid) {
            Some(process) => Ok(process.state),
            None => Err(KernelError::NotFound),
        }
    }
}

impl ThreadManagement for SimpleProcessManager {
    /// Creates a ready thread in process `pid` under the next thread
    /// identifier and queues it for dispatch. `NotFound` if `pid` is not
    /// live; an internal error if `pid` already owns a thread with that
    /// identifier, which the invariant rules out.
    fn create_thread(&mut self, pid: ProcessId) -> (result: KernelResult<ThreadId>)
        ensures
            final(self)@ == old(self)@.create_thread(pid),
            match result {
                Ok(tid) => old(self)@.created_tid(pid) == Some(tid),
                Err(error) => old(self)@.created_tid(pid) is None && if old(
                    self,
                )@.processes.contains_key(pid) {
                    is_internal_error(error, "Thread ID collision within process"@)
                } else {
                    error == KernelError::NotFound
                },
            },
            result matches Ok(tid) ==> final(self)@.ready.contains(tid) && final(self)@.owns(
                pid,
                tid,
            ) && final(self)@.thread(pid, tid).state == ThreadState::Ready,
            old(self).wf() && old(self)@.processes.contains_key(pid) ==> result is Ok,
            old(self).wf() && old(self)@.next_tid < u64::MAX ==> final(self).wf(),
    {
        proof {
            if self.wf() {
                lemma_create_thread_wf(self@, pid);
            }
        }
        match self.take_process(pid) {
            Some(mut process) => {
                let thread_result = process.create_new_thread(&mut self.tids);
                let ready = match &thread_result {
                    Ok(tid) => match process.get_thread_state(*tid) {
                        Ok(state) => state == ThreadState::Ready,
                        Err(_) => false,
                    },
                    Err(_) => false,
                };
                self.file_process(pid, process);
                if let Ok(tid) = &thread_result {
                    if ready {
                        self.scheduler.add_thread(*tid)?;
                    }
                }
                assert(self@.processes =~= old(self)@.create_thread(pid).processes);
                thread_result
            },
            None => {
                assert(self@.processes =~= old(self)@.processes);
                Err(KernelError::NotFound)
            },
        }
    }

    /// Removes thread `tid` from process `pid` and from the ready queue.
    /// `NotFound` if `pid` is not live or does not own `tid`.
    fn terminate_thread(&mut self, pid: ProcessId, tid: ThreadId) -> (result: KernelResult<()>)
        ensures
            final(self)@ == old(self)@.terminate_thread(pid, tid),
            match result {
                Ok(_) => old(self)@.owns(pid, tid),
                Err(error) => !old(self)@.owns(pid, tid) && error == KernelError::NotFound,
            },
            !final(self)@.owns(pid, tid),
            result is Ok && old(self)@.ready.contains(tid) ==> takes_out_first(
                old(self)@.ready,
                tid,
                final(self)@.ready,
            ),
            result is Err || !old(self)@.ready.contains(tid) ==> final(self)@.ready == old(
                self,
            )@.ready,
            old(self).wf() ==> final(self).wf(),
            old(self).wf() && result is Ok ==> !final(self)@.ready.contains(tid),
    {
        proof {
            if self.wf() {
                lemma_terminate_thread_wf(self@, pid, tid);
            }
        }
        match self.take_process(pid) {
            Some(mut process) => {
                let terminate_result = process.terminate_existing_thread(tid);
                let terminated = terminate_result.is_ok();
                self.file_process(pid, process);
                if terminated {
                    self.scheduler.remove_thread(tid)?;
                }
                assert(self@.processes =~= old(self)@.terminate_thread(pid, tid).processes);
                terminate_result
            },
            None => {
                assert(self@.processes =~= old(self)@.processes);
                Err(KernelError::NotFound)
            },
        }
    }

    /// Blocks thread `tid` of process `pid` and takes it out of the ready
    /// queue. The duration is accepted and not acted upon: nothing wakes the
    /// thread. `NotFound` if `pid` is not live or does not own `tid`.
    fn sleep_thread(&mut self, pid: ProcessId, tid: ThreadId, _duration_ms: u64) -> (result:
        KernelResult<()>)
        ensures
            final(self)@ == old(self)@.sleep_thread(pid, tid),
            match result {
                Ok(_) => old(self)@.owns(pid, tid),
                Err(error) => !old(self)@.owns(pid, tid) && error == KernelError::NotFound,
            },
            result is Ok ==> final(self)@.owns(pid, tid) && final(self)@.thread(pid, tid).state
                == ThreadState::Blocked,
            result is Ok && old(self)@.ready.contains(tid) ==> takes_out_first(
                old(self)@.ready,
                tid,
                final(self)@.ready,
            ),
            result is Err || !old(self)@.ready.contains(tid) ==> final(self)@.ready == old(
                self,
            )@.ready,
            old(self).wf() ==> final(self).wf(),
            old(self).wf() && result is Ok ==> !final(self)@.ready.contains(tid),
    {
        proof {
            if self.wf() {
                lemma_sleep_thread_wf(self@, pid, tid);
            }
        }
        match self.take_process(pid) {
            Some(mut process) => {
                let sleep_result = process.set_thread_state(tid, ThreadState::Blocked);
                let asleep = sleep_result.is_ok();
                self.file_process(pid, process);
                if asleep {
                    self.scheduler.remove_thread(tid)?;
                }
                assert(self@.processes =~= old(self)@.sleep_thread(pid, tid).processes);
                sleep_result
            },
            None => {
                assert(self@.processes =~= old(self)@.processes);
                Err(KernelError::NotFound)
            },
        }
    }

    /// The state of thread `tid` of process `pid`; `NotFound` if `pid` is
    /// not live or does not own `tid`.
    fn get_thread_state(&self, pid: ProcessId, tid: ThreadId) -> (result: KernelResult<
        ThreadState,
    >)
        ensures
            match self@.thread_state(pid, tid) {
                Some(state) => result == Ok::<ThreadState, KernelError>(state),
                None => result == Err::<ThreadState, KernelError>(KernelError::NotFound),
            },
    {
        match self.processes.get(&pid) {
            Some(process) => process.get_thread_state(tid),
            None => Err(KernelError::NotFound),
        }
    }
}

impl MessagePassing for SimpleProcessManager {
    /// Appends `message` to the mailbox of its receiver. Always succeeds.
    fn send_message(&mut self, message: Message) -> (result: KernelResult<()>)
        ensures
            result is Ok,
            final(self)@ == old(self)@.send_message(message@),
            old(self).wf() ==> final(self).wf(),
    {
        proof {
            if self.wf() {
                lemma_send_message_wf(self@, message@);
            }
        }
        self.ipc_bus.send_message(message)
    }

    /// Takes the oldest message waiting for `receiver_pid`; `NotFound` when
    /// none is waiting.
    fn receive_message(&mut self, receiver_pid: ProcessId) -> (result: KernelResult<Message>)
        ensures
            final(self)@ == old(self)@.receive_message(receiver_pid),
            match oldest(old(self)@.mailboxes, receiver_pid) {
                Some(first) => result matches Ok(message) && message@ == first,
                None => result == Err::<Message, KernelError>(KernelError::NotFound),
            },
            old(self).wf() ==> final(self).wf(),
            old(self).wf() ==> (result matches Ok(message) ==> message.receiver_pid
                == receiver_pid),
    {
        proof {
            if self.wf() {
                lemma_receive_message_wf(self@, receiver_pid);
            }
        }
        self.ipc_bus.receive_message(receiver_pid)
    }

    /// Takes the oldest message waiting for `receiver_pid`; `Ok(None)` when
    /// none is waiting.
    fn try_receive_message(&mut self, receiver_pid: ProcessId) -> (result: KernelResult<
        Option<Message>,
    >)
        ensures
            final(self)@ == old(self)@.receive_message(receiver_pid),
            match oldest(old(self)@.mailboxes, receiver_pid) {
                Some(first) => result matches Ok(Some(message)) && message@ == first,
                None => result matches Ok(None),
            },
            old(self).wf() ==> final(self).wf(),
            old(self).wf() ==> (result matches Ok(Some(message)) ==> message.receiver_pid
                == receiver_pid),
    {
        proof {
            if self.wf() {
                lemma_receive_message_wf(self@, receiver_pid);
            }
        }
        self.ipc_bus.try_receive_message(receiver_pid)
    }
}

} // verus!
