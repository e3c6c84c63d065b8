//! The registry as a mathematical state: what it holds, how each operation
//! changes it, and the invariant the operations keep.

use vstd::prelude::*;

use crate::kernel::id::{law_ids_distinct, law_ids_increase, next_after, nth_id};
use crate::kernel::ipc::{
    collected, delivered, lemma_collected_well_addressed, lemma_delivered_well_addressed,
    well_addressed, Mailboxes, MessageView,
};
use crate::kernel::process::{ProcessId, ProcessState, ProcessView};
use crate::kernel::scheduler::{
    admitted, lemma_rotated_no_duplicates, lemma_withdrawn_no_duplicates, rotated, withdrawn,
};
use crate::kernel::thread::{Thread, ThreadId, ThreadState};

verus! {

/// Everything a registry holds.
pub struct RegistryView {
    /// The live processes, by identifier.
    pub processes: Map<ProcessId, ProcessView>,
    /// The scheduler's ready queue, next to dispatch first.
    pub ready: Seq<ThreadId>,
    /// The message bus.
    pub mailboxes: Mailboxes,
    /// The identifier the next process will get.
    pub next_pid: ProcessId,
    /// The identifier the next thread will get.
    pub next_tid: ThreadId,
}

/// Keeps the threads that the given thread map does not hold.
pub open spec fn not_among(threads: Map<ThreadId, Thread>) -> spec_fn(ThreadId) -> bool {
    |tid: ThreadId| !threads.contains_key(tid)
}

/// One call made of a registry or of its scheduler.
pub enum Operation {
    CreateProcess,
    TerminateProcess { pid: ProcessId },
    CreateThread { pid: ProcessId },
    TerminateThread { pid: ProcessId, tid: ThreadId },
    SleepThread { pid: ProcessId, tid: ThreadId },
    SendMessage { message: MessageView },
    /// A receive, blocking or polling.
    ReceiveMessage { pid: ProcessId },
    ScheduleNext,
}

impl RegistryView {
    /// A registry with nothing in it, whose identifiers start at 1.
    pub open spec fn initial() -> RegistryView {
        RegistryView {
            processes: Map::empty(),
            ready: Seq::empty(),
            mailboxes: Map::empty(),
            next_pid: 1,
            next_tid: 1,
        }
    }

    /// Process `pid` is live and owns thread `tid`.
    pub open spec fn owns(self, pid: ProcessId, tid: ThreadId) -> bool {
        self.processes.contains_key(pid) && self.processes[pid].threads.contains_key(tid)
    }

    /// Thread `tid` as process `pid` records it.
    pub open spec fn thread(self, pid: ProcessId, tid: ThreadId) -> Thread {
        self.processes[pid].threads[tid]
    }

    /// What `get_process_state(pid)` reports; `None` stands for `NotFound`.
    pub open spec fn process_state(self, pid: ProcessId) -> Option<ProcessState> {
        if self.processes.contains_key(pid) {
            Some(self.processes[pid].state)
        } else {
            None
        }
    }

    /// What `get_thread_state(pid, tid)` reports; `None` stands for
    /// `NotFound`.
    pub open spec fn thread_state(self, pid: ProcessId, tid: ThreadId) -> Option<ThreadState> {
        if self.owns(pid, tid) {
            Some(self.thread(pid, tid).state)
        } else {
            None
        }
    }

    /// Some live process owns thread `tid` in state `Ready`.
    pub open spec fn is_ready(self, tid: ThreadId) -> bool {
        exists|pid: ProcessId| #[trigger]
            self.owns(pid, tid) && self.thread(pid, tid).state == ThreadState::Ready
    }

    /// Every process and thread is filed under its own identifier, and every
    /// thread names the process that owns it.
    pub open spec fn records_consistent(self) -> bool {
        &&& forall|pid: ProcessId| #[trigger]
            self.processes.contains_key(pid) ==> self.processes[pid].id == pid
        &&& forall|pid: ProcessId, tid: ThreadId| #[trigger]
            self.owns(pid, tid) ==> self.thread(pid, tid).id == tid && self.thread(
                pid,
                tid,
            ).process_id == pid
    }

    /// No two processes own a thread with the same identifier.
    pub open spec fn thread_ids_unique(self) -> bool {
        forall|first: ProcessId, second: ProcessId, tid: ThreadId|
            #[trigger] self.owns(first, tid) && #[trigger] self.owns(second, tid) ==> first
                == second
    }

    /// The ready queue holds no thread twice, and only ready threads of live
    /// processes.
    pub open spec fn ready_queue_coupled(self) -> bool {
        &&& self.ready.no_duplicates()
        &&& forall|i: int| 0 <= i < self.ready.len() ==> self.is_ready(#[trigger] self.ready[i])
    }

    /// Every identifier in use lies below the one that will be handed out
    /// next.
    pub open spec fn ids_fresh(self) -> bool {
        &&& forall|pid: ProcessId| #[trigger]
            self.processes.contains_key(pid) ==> pid < self.next_pid
        &&& forall|pid: ProcessId, tid: ThreadId| #[trigger]
            self.owns(pid, tid) ==> tid < self.next_tid
    }

    /// The registry invariant.
    pub open spec fn wf(self) -> bool {
        &&& self.records_consistent()
        &&& self.thread_ids_unique()
        &&& self.ready_queue_coupled()
        &&& self.ids_fresh()
        &&& well_addressed(self.mailboxes)
    }

    /// The identifier `create_process` returns: the next one, unless a live
    /// process already has it.
    pub open spec fn created_pid(self) -> Option<ProcessId> {
        if self.processes.contains_key(self.next_pid) {
            None
        } else {
            Some(self.next_pid)
        }
    }

    /// The registry after `create_process`. The identifier is used up
    /// whether or not a process could be filed under it.
    pub open spec fn create_process(self) -> RegistryView {
        RegistryView {
            processes: match self.created_pid() {
                Some(pid) => self.processes.insert(pid, ProcessView::created(pid)),
                None => self.processes,
            },
            next_pid: next_after(self.next_pid),
            ..self
        }
    }

    /// The registry after `terminate_process(pid)`: the process is gone with
    /// all its threads, none of which stays in the ready queue.
    pub open spec fn terminate_process(self, pid: ProcessId) -> RegistryView {
        if self.processes.contains_key(pid) {
            RegistryView {
                processes: self.processes.remove(pid),
                ready: self.ready.filter(not_among(self.processes[pid].threads)),
                ..self
            }
        } else {
            self
        }
    }

    /// The identifier `create_thread(pid)` returns: the next one, unless
    /// `pid` is not live or already owns a thread with it.
    pub open spec fn created_tid(self, pid: ProcessId) -> Option<ThreadId> {
        if self.processes.contains_key(pid) && !self.owns(pid, self.next_tid) {
            Some(self.next_tid)
        } else {
            None
        }
    }

    /// The registry after `create_thread(pid)`. Without a live `pid` nothing
    /// changes; otherwise the identifier is used up, and the new thread, if
    /// it could be filed, is ready and queued.
    pub open spec fn create_thread(self, pid: ProcessId) -> RegistryView {
        if !self.processes.contains_key(pid) {
            self
        } else {
            match self.created_tid(pid) {
                Some(tid) => RegistryView {
                    processes: self.processes.insert(pid, self.processes[pid].with_thread(tid)),
                    ready: admitted(self.ready, tid),
                    next_tid: next_after(self.next_tid),
                    ..self
                },
                None => RegistryView { next_tid: next_after(self.next_tid), ..self },
            }
        }
    }

    /// The registry after `terminate_thread(pid, tid)`.
    pub open spec fn terminate_thread(self, pid: ProcessId, tid: ThreadId) -> RegistryView {
        if self.owns(pid, tid) {
            RegistryView {
                processes: self.processes.insert(pid, self.processes[pid].without_thread(tid)),
                ready: withdrawn(self.ready, tid),
                ..self
            }
        } else {
            self
        }
    }

    /// The registry after `sleep_thread(pid, tid, _)`.
    pub open spec fn sleep_thread(self, pid: ProcessId, tid: ThreadId) -> RegistryView {
        if self.owns(pid, tid) {
            RegistryView {
                processes: self.processes.insert(
                    pid,
                    self.processes[pid].with_thread_state(tid, ThreadState::Blocked),
                ),
                ready: withdrawn(self.ready, tid),
                ..self
            }
        } else {
            self
        }
    }

    /// The registry after `send_message(message)`.
    pub open spec fn send_message(self, message: MessageView) -> RegistryView {
        RegistryView { mailboxes: delivered(self.mailboxes, message), ..self }
    }

    /// The registry after a receive on `pid`, blocking or polling.
    pub open spec fn receive_message(self, pid: ProcessId) -> RegistryView {
        RegistryView { mailboxes: collected(self.mailboxes, pid), ..self }
    }

    /// The registry after one dispatch by its scheduler.
    pub open spec fn schedule_next(self) -> RegistryView {
        RegistryView { ready: rotated(self.ready), ..self }
    }

    /// The registry after `operation`.
    pub open spec fn apply(self, operation: Operation) -> RegistryView {
        match operation {
            Operation::CreateProcess => self.create_process(),
            Operation::TerminateProcess { pid } => self.terminate_process(pid),
            Operation::CreateThread { pid } => self.create_thread(pid),
            Operation::TerminateThread { pid, tid } => self.terminate_thread(pid, tid),
            Operation::SleepThread { pid, tid } => self.sleep_thread(pid, tid),
            Operation::SendMessage { message } => self.send_message(message),
            Operation::ReceiveMessage { pid } => self.receive_message(pid),
            Operation::ScheduleNext => self.schedule_next(),
        }
    }

    /// The registry after `operations`, carried out in order.
    pub open spec fn run(self, operations: Seq<Operation>) -> RegistryView
        decreases operations.len(),
    {
        if operations.len() == 0 {
            self
        } else {
            self.run(operations.drop_last()).apply(operations.last())
        }
    }

    /// How many process identifiers `operations` use up.
    pub open spec fn pids_drawn(self, operations: Seq<Operation>) -> nat
        decreases operations.len(),
    {
        if operations.len() == 0 {
            0
        } else {
            let earlier = self.pids_drawn(operations.drop_last());
            if operations.last() is CreateProcess {
                earlier + 1
            } else {
                earlier
            }
        }
    }

    /// How many thread identifiers `operations` use up: one for each thread
    /// creation in a process that is live at the time.
    pub open spec fn tids_drawn(self, operations: Seq<Operation>) -> nat
        decreases operations.len(),
    {
        if operations.len() == 0 {
            0
        } else {
            let earlier = self.tids_drawn(operations.drop_last());
            if operations.last() matches Operation::CreateThread { pid } && self.run(
                operations.drop_last(),
            ).processes.contains_key(pid) {
                earlier + 1
            } else {
                earlier
            }
        }
    }
}

/// An empty registry satisfies the invariant.
pub proof fn lemma_initial_wf()
    ensures
        RegistryView::initial().wf(),
{
}

/// A ready thread stays ready across a change that keeps the record its
/// owner has of it.
proof fn lemma_stays_ready(before: RegistryView, after: RegistryView, tid: ThreadId)
    requires
        before.is_ready(tid),
        forall|pid: ProcessId| #[trigger]
            before.owns(pid, tid) ==> after.owns(pid, tid) && after.thread(pid, tid)
                == before.thread(pid, tid),
    ensures
        after.is_ready(tid),
{
    let owner = choose|owner: ProcessId| #[trigger]
        before.owns(owner, tid) && before.thread(owner, tid).state == ThreadState::Ready;
    assert(after.owns(owner, tid));
}

/// Creating a process keeps the invariant while process identifiers last,
/// and under the invariant the creation cannot collide.
pub proof fn lemma_create_process_wf(registry: RegistryView)
    requires
        registry.wf(),
    ensures
        registry.created_pid() == Some(registry.next_pid),
        registry.next_pid < u64::MAX ==> registry.create_process().wf(),
{
    let after = registry.create_process();
    if registry.next_pid < u64::MAX {
        assert forall|pid: ProcessId, tid: ThreadId| #[trigger] after.owns(pid, tid) implies {
            &&& registry.owns(pid, tid)
            &&& after.thread(pid, tid) == registry.thread(pid, tid)
        } by {}
        assert forall|i: int| 0 <= i < after.ready.len() implies after.is_ready(
            #[trigger] after.ready[i],
        ) by {
            lemma_stays_ready(registry, after, registry.ready[i]);
        }
    }
}

/// Creating a thread keeps the invariant while thread identifiers last, and
/// under the invariant the creation cannot collide.
pub proof fn lemma_create_thread_wf(registry: RegistryView, pid: ProcessId)
    requires
        registry.wf(),
    ensures
        registry.processes.contains_key(pid) ==> registry.created_tid(pid) == Some(
            registry.next_tid,
        ),
        registry.next_tid < u64::MAX ==> registry.create_thread(pid).wf(),
{
    let after = registry.create_thread(pid);
    let tid = registry.next_tid;
    if registry.processes.contains_key(pid) && registry.next_tid < u64::MAX {
        assert forall|owner: ProcessId, other: ThreadId| #[trigger]
            after.owns(owner, other) implies {
            ||| registry.owns(owner, other) && after.thread(owner, other) == registry.thread(
                owner,
                other,
            )
            ||| owner == pid && other == tid && after.thread(owner, other) == (Thread {
                id: tid,
                process_id: pid,
                state: ThreadState::Ready,
            })
        } by {}
        assert(after.owns(pid, tid));
        assert(!registry.ready.contains(tid)) by {
            if registry.ready.contains(tid) {
                let i = choose|i: int| 0 <= i < registry.ready.len() && registry.ready[i] == tid;
                assert(registry.is_ready(registry.ready[i]));
            }
        }
        assert forall|i: int| 0 <= i < after.ready.len() implies after.is_ready(
            #[trigger] after.ready[i],
        ) by {
            if i < registry.ready.len() {
                lemma_stays_ready(registry, after, registry.ready[i]);
            }
        }
    }
}

/// Under the invariant, what holds of the registry once thread `tid` of
/// process `pid` is no longer ready, whether it was removed or put to sleep.
proof fn lemma_withdrawal_wf(
    registry: RegistryView,
    after: RegistryView,
    pid: ProcessId,
    tid: ThreadId,
)
    requires
        registry.wf(),
        registry.owns(pid, tid),
        after == registry.terminate_thread(pid, tid) || after == registry.sleep_thread(pid, tid),
    ensures
        after.wf(),
        !after.ready.contains(tid),
{
    lemma_withdrawn_no_duplicates(registry.ready, tid);
    assert forall|owner: ProcessId, other: ThreadId| #[trigger] after.owns(owner, other) implies {
        &&& registry.owns(owner, other)
        &&& after.thread(owner, other).id == registry.thread(owner, other).id
        &&& after.thread(owner, other).process_id == registry.thread(owner, other).process_id
    } by {}
    assert forall|i: int| 0 <= i < after.ready.len() implies after.is_ready(
        #[trigger] after.ready[i],
    ) by {
        let other = after.ready[i];
        assert(after.ready.contains(other));
        assert(registry.ready.contains(other) && other != tid);
        lemma_stays_ready(registry, after, other);
    }
}

/// Terminating a thread keeps the invariant and leaves the thread out of
/// the ready queue.
pub proof fn lemma_terminate_thread_wf(registry: RegistryView, pid: ProcessId, tid: ThreadId)
    requires
        registry.wf(),
    ensures
        registry.terminate_thread(pid, tid).wf(),
        registry.owns(pid, tid) ==> !registry.terminate_thread(pid, tid).ready.contains(tid),
{
    if registry.owns(pid, tid) {
        lemma_withdrawal_wf(registry, registry.terminate_thread(pid, tid), pid, tid);
    }
}

/// Putting a thread to sleep keeps the invariant and leaves the thread out
/// of the ready queue.
pub proof fn lemma_sleep_thread_wf(registry: RegistryView, pid: ProcessId, tid: ThreadId)
    requires
        registry.wf(),
    ensures
        registry.sleep_thread(pid, tid).wf(),
        registry.owns(pid, tid) ==> !registry.sleep_thread(pid, tid).ready.contains(tid),
{
    if registry.owns(pid, tid) {
        lemma_withdrawal_wf(registry, registry.sleep_thread(pid, tid), pid, tid);
    }
}

/// Filtering a queue without repeats leaves a queue without repeats, made
/// of exactly the threads that pass the filter.
pub proof fn lemma_filter_queue(queue: Seq<ThreadId>, keep: spec_fn(ThreadId) -> bool)
    ensures
        queue.no_duplicates() ==> queue.filter(keep).no_duplicates(),
        forall|tid: ThreadId| #[trigger]
            queue.filter(keep).contains(tid) <==> queue.contains(tid) && keep(tid),
    decreases queue.len(),
{
    let kept = queue.filter(keep);
    assert forall|tid: ThreadId| #[trigger] kept.contains(tid) <==> queue.contains(tid) && keep(
        tid,
    ) by {
        if kept.contains(tid) {
            let i = choose|i: int| 0 <= i < kept.len() && kept[i] == tid;
            queue.lemma_filter_pred(keep, i);
            queue.lemma_filter_contains_rev(keep, tid);
        }
        if queue.contains(tid) && keep(tid) {
            let i = choose|i: int| 0 <= i < queue.len() && queue[i] == tid;
            queue.lemma_filter_contains(keep, i);
        }
    }
    reveal(Seq::filter);
    if queue.len() > 0 && queue.no_duplicates() {
        let rest = queue.drop_last();
        let last = queue.last();
        lemma_filter_queue(rest, keep);
        assert(!rest.contains(last)) by {
            if rest.contains(last) {
                let i = choose|i: int| 0 <= i < rest.len() && rest[i] == last;
                assert(queue[i] == queue[queue.len() - 1]);
            }
        }
        assert(!rest.filter(keep).contains(last));
    }
}

/// Terminating a process keeps the invariant and leaves none of its threads
/// in the ready queue.
pub proof fn lemma_terminate_process_wf(registry: RegistryView, pid: ProcessId)
    requires
        registry.wf(),
    ensures
        registry.terminate_process(pid).wf(),
        forall|tid: ThreadId| #[trigger]
            registry.owns(pid, tid) ==> !registry.terminate_process(pid).ready.contains(tid),
{
    let after = registry.terminate_process(pid);
    if registry.processes.contains_key(pid) {
        lemma_filter_queue(registry.ready, not_among(registry.processes[pid].threads));
        assert forall|owner: ProcessId, tid: ThreadId| #[trigger] after.owns(owner, tid) implies {
            &&& registry.owns(owner, tid)
            &&& owner != pid
            &&& after.thread(owner, tid) == registry.thread(owner, tid)
        } by {}
        assert forall|i: int| 0 <= i < after.ready.len() implies after.is_ready(
            #[trigger] after.ready[i],
        ) by {
            let tid = after.ready[i];
            assert(after.ready.contains(tid));
            assert(registry.ready.contains(tid) && !registry.owns(pid, tid));
            lemma_stays_ready(registry, after, tid);
        }
    }
}

/// Operations that touch neither processes, ready queue nor counters keep
/// what the invariant says of them.
proof fn lemma_same_records_wf(registry: RegistryView, after: RegistryView)
    requires
        registry.wf(),
        after.processes == registry.processes,
        after.ready == registry.ready,
        after.next_pid == registry.next_pid,
        after.next_tid == registry.next_tid,
        well_addressed(after.mailboxes),
    ensures
        after.wf(),
{
    assert forall|pid: ProcessId, tid: ThreadId| #[trigger] after.owns(pid, tid) implies {
        &&& registry.owns(pid, tid)
        &&& after.thread(pid, tid) == registry.thread(pid, tid)
    } by {}
    assert forall|i: int| 0 <= i < after.ready.len() implies after.is_ready(
        #[trigger] after.ready[i],
    ) by {
        lemma_stays_ready(registry, after, registry.ready[i]);
    }
}

/// Sending a message keeps the invariant.
pub proof fn lemma_send_message_wf(registry: RegistryView, message: MessageView)
    requires
        registry.wf(),
    ensures
        registry.send_message(message).wf(),
{
    lemma_delivered_well_addressed(registry.mailboxes, message);
    lemma_same_records_wf(registry, registry.send_message(message));
}

/// Receiving a message keeps the invariant.
pub proof fn lemma_receive_message_wf(registry: RegistryView, pid: ProcessId)
    requires
        registry.wf(),
    ensures
        registry.receive_message(pid).wf(),
{
    lemma_collected_well_addressed(registry.mailboxes, pid);
    lemma_same_records_wf(registry, registry.receive_message(pid));
}

/// A dispatch keeps the invariant.
pub proof fn lemma_schedule_next_wf(registry: RegistryView)
    requires
        registry.wf(),
    ensures
        registry.schedule_next().wf(),
{
    let after = registry.schedule_next();
    lemma_rotated_no_duplicates(registry.ready);
    assert forall|pid: ProcessId, tid: ThreadId| #[trigger] after.owns(pid, tid) implies {
        &&& registry.owns(pid, tid)
        &&& after.thread(pid, tid) == registry.thread(pid, tid)
    } by {}
    assert forall|i: int| 0 <= i < after.ready.len() implies after.is_ready(
        #[trigger] after.ready[i],
    ) by {
        let tid = after.ready[i];
        assert(after.ready.contains(tid));
        assert(registry.ready.contains(tid));
        lemma_stays_ready(registry, after, tid);
    }
}

/// Each operation keeps the invariant, as long as the creation of a process
/// or thread does not use up the last identifier.
pub proof fn lemma_apply_wf(registry: RegistryView, operation: Operation)
    requires
        registry.wf(),
        operation is CreateProcess ==> registry.next_pid < u64::MAX,
        operation is CreateThread ==> registry.next_tid < u64::MAX,
    ensures
        registry.apply(operation).wf(),
{
    match operation {
        Operation::CreateProcess => lemma_create_process_wf(registry),
        Operation::TerminateProcess { pid } => lemma_terminate_process_wf(registry, pid),
        Operation::CreateThread { pid } => lemma_create_thread_wf(registry, pid),
        Operation::TerminateThread { pid, tid } => lemma_terminate_thread_wf(registry, pid, tid),
        Operation::SleepThread { pid, tid } => lemma_sleep_thread_wf(registry, pid, tid),
        Operation::SendMessage { message } => lemma_send_message_wf(registry, message),
        Operation::ReceiveMessage { pid } => lemma_receive_message_wf(registry, pid),
        Operation::ScheduleNext => lemma_schedule_next_wf(registry),
    }
}

/// The counters after a run stand where the identifiers drawn have taken
/// them, and no run draws more identifiers than it has operations.
proof fn lemma_run_counters(registry: RegistryView, operations: Seq<Operation>)
    ensures
        registry.run(operations).next_pid == nth_id(
            registry.next_pid,
            registry.pids_drawn(operations),
        ),
        registry.run(operations).next_tid == nth_id(
            registry.next_tid,
            registry.tids_drawn(operations),
        ),
        registry.pids_drawn(operations) <= operations.len(),
        registry.tids_drawn(operations) <= operations.len(),
    decreases operations.len(),
{
    if operations.len() > 0 {
        lemma_run_counters(registry, operations.drop_last());
    }
}

/// A longer run has drawn at least as many identifiers as any of its
/// beginnings, and at most one more for each further operation.
proof fn lemma_drawn_grows(
    registry: RegistryView,
    operations: Seq<Operation>,
    shorter: int,
    longer: int,
)
    requires
        0 <= shorter <= longer <= operations.len(),
    ensures
        registry.pids_drawn(operations.take(shorter)) <= registry.pids_drawn(
            operations.take(longer),
        ) <= registry.pids_drawn(operations.take(shorter)) + (longer - shorter),
        registry.tids_drawn(operations.take(shorter)) <= registry.tids_drawn(
            operations.take(longer),
        ) <= registry.tids_drawn(operations.take(shorter)) + (longer - shorter),
    decreases longer - shorter,
{
    if shorter < longer {
        lemma_drawn_grows(registry, operations, shorter, longer - 1);
        assert(operations.take(longer).drop_last() =~= operations.take(longer - 1));
    }
}

/// Process identifiers are unique: in any run of operations, two process
/// creations return different identifiers, unless the number of process
/// identifiers used up from the one to the other is a multiple of 2^64.
pub proof fn law_process_ids_unique(
    registry: RegistryView,
    operations: Seq<Operation>,
    first: int,
    second: int,
)
    requires
        0 <= first < second < operations.len(),
        operations[first] is CreateProcess,
        operations[second] is CreateProcess,
        (registry.pids_drawn(operations.take(second)) - registry.pids_drawn(
            operations.take(first),
        )) % 0x1_0000_0000_0000_0000 != 0,
    ensures
        ({
            let earlier = registry.run(operations.take(first)).created_pid();
            let later = registry.run(operations.take(second)).created_pid();
            earlier is Some && later is Some ==> earlier != later
        }),
{
    lemma_run_counters(registry, operations.take(first));
    lemma_run_counters(registry, operations.take(second));
    lemma_drawn_grows(registry, operations, first, second);
    law_ids_distinct(
        registry.next_pid,
        registry.pids_drawn(operations.take(first)),
        registry.pids_drawn(operations.take(second)),
    );
}

/// Thread identifiers are unique across all processes: in any run of
/// operations, two thread creations return different identifiers, whichever
/// processes they are made in, unless the number of thread identifiers used
/// up from the one to the other is a multiple of 2^64.
pub proof fn law_thread_ids_unique(
    registry: RegistryView,
    operations: Seq<Operation>,
    first: int,
    second: int,
)
    requires
        0 <= first < second < operations.len(),
        operations[first] is CreateThread,
        operations[second] is CreateThread,
        (registry.tids_drawn(operations.take(second)) - registry.tids_drawn(
            operations.take(first),
        )) % 0x1_0000_0000_0000_0000 != 0,
    ensures
        ({
            let earlier = registry.run(operations.take(first)).created_tid(
                operations[first]->CreateThread_pid,
            );
            let later = registry.run(operations.take(second)).created_tid(
                operations[second]->CreateThread_pid,
            );
            earlier is Some && later is Some ==> earlier != later
        }),
{
    lemma_run_counters(registry, operations.take(first));
    lemma_run_counters(registry, operations.take(second));
    lemma_drawn_grows(registry, operations, first, second);
    law_ids_distinct(
        registry.next_tid,
        registry.tids_drawn(operations.take(first)),
        registry.tids_drawn(operations.take(second)),
    );
}

/// From a creation that uses up an identifier to any later point of the run
/// fewer than 2^64 operations on, at least one identifier and fewer than
/// 2^64 are used up. So creations that close together never return the same
/// identifier.
pub proof fn law_ids_unique_within_reach(
    registry: RegistryView,
    operations: Seq<Operation>,
    first: int,
    second: int,
)
    requires
        0 <= first < second < operations.len(),
        second - first <= u64::MAX,
    ensures
        operations[first] is CreateProcess ==> 0 < registry.pids_drawn(operations.take(second))
            - registry.pids_drawn(operations.take(first)) <= u64::MAX,
        operations[first] matches Operation::CreateThread { pid } && registry.run(
            operations.take(first),
        ).created_tid(pid) is Some ==> 0 < registry.tids_drawn(operations.take(second))
            - registry.tids_drawn(operations.take(first)) <= u64::MAX,
{
    lemma_drawn_grows(registry, operations, first + 1, second);
    assert(operations.take(first + 1).drop_last() =~= operations.take(first));
}

/// The invariant holds after any run of operations that starts from a
/// registry satisfying it and leaves both counters short of the largest
/// identifier; along such a run every process creation succeeds.
pub proof fn law_run_keeps_invariant(registry: RegistryView, operations: Seq<Operation>)
    requires
        registry.wf(),
        registry.next_pid + operations.len() <= u64::MAX,
        registry.next_tid + operations.len() <= u64::MAX,
    ensures
        registry.run(operations).wf(),
        registry.run(operations).created_pid() == Some(registry.run(operations).next_pid),
    decreases operations.len(),
{
    if operations.len() > 0 {
        let before = registry.run(operations.drop_last());
        law_run_keeps_invariant(registry, operations.drop_last());
        lemma_run_counters(registry, operations.drop_last());
        law_ids_increase(registry.next_pid, registry.pids_drawn(operations.drop_last()));
        law_ids_increase(registry.next_tid, registry.tids_drawn(operations.drop_last()));
        lemma_apply_wf(before, operations.last());
    }
    lemma_create_process_wf(registry.run(operations));
}

/// Lifecycle: a process starts out `New` and a thread `Ready`; once a
/// process or a thread has been terminated, asking for its state reports
/// that it is not there.
pub proof fn law_lifecycle(registry: RegistryView, pid: ProcessId, tid: ThreadId)
    ensures
        registry.created_pid() matches Some(created) ==> registry.create_process().process_state(
            created,
        ) == Some(ProcessState::New),
        registry.created_tid(pid) matches Some(created) ==> registry.create_thread(
            pid,
        ).thread_state(pid, created) == Some(ThreadState::Ready),
        registry.terminate_process(pid).process_state(pid) is None,
        registry.terminate_thread(pid, tid).thread_state(pid, tid) is None,
{
}

/// Coupling of registry and scheduler: a thread that has just been created
/// waits in the ready queue; under the invariant, a thread that has just
/// been terminated or put to sleep does not, nor does any thread of a
/// process that has just been terminated.
pub proof fn law_ready_queue_coupling(registry: RegistryView, pid: ProcessId, tid: ThreadId)
    ensures
        registry.created_tid(pid) matches Some(created) ==> registry.create_thread(
            pid,
        ).ready.contains(created),
        registry.wf() && registry.owns(pid, tid) ==> {
            &&& !registry.terminate_thread(pid, tid).ready.contains(tid)
            &&& !registry.sleep_thread(pid, tid).ready.contains(tid)
            &&& !registry.terminate_process(pid).ready.contains(tid)
        },
{
    if registry.created_tid(pid) is Some {
        let created = registry.next_tid;
        if !registry.ready.contains(created) {
            assert(registry.ready.push(created).last() == created);
        }
    }
    if registry.wf() && registry.owns(pid, tid) {
        lemma_terminate_thread_wf(registry, pid, tid);
        lemma_sleep_thread_wf(registry, pid, tid);
        lemma_terminate_process_wf(registry, pid);
    }
}

} // verus!
