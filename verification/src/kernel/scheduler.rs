//! Round-robin dispatch over a queue of ready threads.

use std::collections::VecDeque;
use vstd::arithmetic::div_mod::{
    lemma_add_mod_noop, lemma_mod_add_multiples_vanish, lemma_mod_self_0, lemma_mod_twice,
    lemma_small_mod,
};
use vstd::prelude::*;

use crate::kernel::thread::ThreadId;
use crate::kernel::KernelResult;

verus! {

/// The ready queue once `tid` has been admitted: `tid` joins at the back
/// unless it is already waiting.
pub open spec fn admitted(queue: Seq<ThreadId>, tid: ThreadId) -> Seq<ThreadId> {
    if queue.contains(tid) {
        queue
    } else {
        queue.push(tid)
    }
}

/// `position` is the first place in `queue` where `tid` waits.
pub open spec fn first_at(queue: Seq<ThreadId>, tid: ThreadId, position: int) -> bool {
    &&& 0 <= position < queue.len()
    &&& queue[position] == tid
    &&& forall|earlier: int| 0 <= earlier < position ==> queue[earlier] != tid
}

/// `after` is `before` with the first occurrence of `tid` taken out.
pub open spec fn takes_out_first(
    before: Seq<ThreadId>,
    tid: ThreadId,
    after: Seq<ThreadId>,
) -> bool {
    exists|position: int| first_at(before, tid, position) && after == before.remove(position)
}

/// The ready queue once `tid` has been withdrawn: its first occurrence is
/// taken out, and a queue that does not hold it stays as it is.
pub open spec fn withdrawn(queue: Seq<ThreadId>, tid: ThreadId) -> Seq<ThreadId> {
    queue.remove_value(tid)
}

/// The ready queue after one dispatch: the front thread moves to the back.
pub open spec fn rotated(queue: Seq<ThreadId>) -> Seq<ThreadId> {
    if queue.len() == 0 {
        queue
    } else {
        queue.drop_first().push(queue.first())
    }
}

/// The thread one dispatch hands out, if any thread is ready.
pub open spec fn front(queue: Seq<ThreadId>) -> Option<ThreadId> {
    if queue.len() == 0 {
        None
    } else {
        Some(queue.first())
    }
}

/// The ready queue after `rounds` dispatches in a row.
pub open spec fn dispatched(queue: Seq<ThreadId>, rounds: nat) -> Seq<ThreadId>
    decreases rounds,
{
    if rounds == 0 {
        queue
    } else {
        rotated(dispatched(queue, (rounds - 1) as nat))
    }
}

/// `tid` waits in `queue` at one position and no other.
pub open spec fn waits_once(queue: Seq<ThreadId>, tid: ThreadId) -> bool {
    exists|i: int|
        0 <= i < queue.len() && #[trigger] queue[i] == tid && forall|j: int|
            0 <= j < queue.len() && #[trigger] queue[j] == tid ==> j == i
}

/// A scheduling policy over the threads that are ready to run.
pub trait Scheduler {
    /// What the policy promises of an `add_thread(tid)` that takes the
    /// scheduler from `before` to `after` and returns `result`.
    spec fn admits(before: &Self, tid: ThreadId, after: &Self, result: KernelResult<()>) -> bool;

    /// What the policy promises of a `remove_thread(tid)` that takes the
    /// scheduler from `before` to `after` and returns `result`.
    spec fn withdraws(before: &Self, tid: ThreadId, after: &Self, result: KernelResult<()>) -> bool;

    /// What the policy promises of a `schedule_next()` that takes the
    /// scheduler from `before` to `after` and returns `next`.
    spec fn dispatches(before: &Self, after: &Self, next: Option<ThreadId>) -> bool;

    /// Makes `tid` eligible for dispatch.
    fn add_thread(&mut self, tid: ThreadId) -> (result: KernelResult<()>)
        ensures
            Self::admits(old(self), tid, final(self), result),
    ;

    /// Takes `tid` out of rotation.
    fn remove_thread(&mut self, tid: ThreadId) -> (result: KernelResult<()>)
        ensures
            Self::withdraws(old(self), tid, final(self), result),
    ;

    /// Picks the thread to run next; `None` when no thread is ready.
    fn schedule_next(&mut self) -> (next: Option<ThreadId>)
        ensures
            Self::dispatches(old(self), final(self), next),
    ;

    /// Marks a thread as ready. Unless a policy decides otherwise this is
    /// `add_thread`.
    fn mark_thread_ready(&mut self, tid: ThreadId) -> (result: KernelResult<()>)
        default_ensures
            Self::admits(old(self), tid, final(self), result),
    {
        self.add_thread(tid)
    }

    /// Marks a thread as blocked. Unless a policy decides otherwise this is
    /// `remove_thread`.
    fn mark_thread_blocked(&mut self, tid: ThreadId) -> (result: KernelResult<()>)
        default_ensures
            Self::withdraws(old(self), tid, final(self), result),
    {
        self.remove_thread(tid)
    }
}

#[derive(Debug)]
pub struct RoundRobinScheduler {
    /// Ready threads, next to dispatch first.
    pub ready_queue: VecDeque<ThreadId>,
}

impl View for RoundRobinScheduler {
    type V = Seq<ThreadId>;

    open spec fn view(&self) -> Seq<ThreadId> {
        self.ready_queue@
    }
}

impl Default for RoundRobinScheduler {
    fn default() -> (scheduler: Self)
        ensures
            scheduler@ == Seq::<ThreadId>::empty(),
    {
        RoundRobinScheduler { ready_queue: VecDeque::new() }
    }
}

impl RoundRobinScheduler {
    /// No thread waits twice.
    pub open spec fn wf(&self) -> bool {
        self@.no_duplicates()
    }

    /// A scheduler with nothing to dispatch.
    pub fn new() -> (scheduler: Self)
        ensures
            scheduler@ == Seq::<ThreadId>::empty(),
            scheduler.wf(),
    {
        Self::default()
    }
}

impl Scheduler for RoundRobinScheduler {
    /// Always succeeds; `tid` joins the back of the queue unless it is
    /// already waiting. Afterwards `tid` waits, and a queue without repeats
    /// stays without repeats.
    open spec fn admits(
        before: &Self,
        tid: ThreadId,
        after: &Self,
        result: KernelResult<()>,
    ) -> bool {
        &&& result is Ok
        &&& after@ == admitted(before@, tid)
        &&& after@.contains(tid)
        &&& before.wf() ==> after.wf()
    }

    /// Always succeeds; the first occurrence of `tid` leaves the queue, and
    /// a queue that does not hold `tid` stays as it is. In a queue without
    /// repeats `tid` no longer waits afterwards.
    open spec fn withdraws(
        before: &Self,
        tid: ThreadId,
        after: &Self,
        result: KernelResult<()>,
    ) -> bool {
        &&& result is Ok
        &&& after@ == withdrawn(before@, tid)
        &&& !before@.contains(tid) ==> after@ == before@
        &&& before@.contains(tid) ==> takes_out_first(before@, tid, after@)
        &&& before.wf() ==> after.wf() && !after@.contains(tid)
    }

    /// The thread at the front is handed out and moves to the back; with
    /// nothing ready, nothing is handed out and nothing changes. A queue
    /// without repeats stays without repeats.
    open spec fn dispatches(before: &Self, after: &Self, next: Option<ThreadId>) -> bool {
        &&& next == front(before@)
        &&& after@ == rotated(before@)
        &&& before.wf() ==> after.wf()
    }

    fn add_thread(&mut self, tid: ThreadId) -> (result: KernelResult<()>)
        ensures
            result is Ok,
            final(self)@ == admitted(old(self)@, tid),
            final(self)@.contains(tid),
            old(self).wf() ==> final(self).wf(),
    {
        let mut present = false;
        let mut i: usize = 0;
        while i < self.ready_queue.len()
            invariant
                i <= self.ready_queue@.len(),
                self.ready_queue@ == old(self).ready_queue@,
                present <==> exists|j: int| 0 <= j < i && self.ready_queue@[j] == tid,
            decreases self.ready_queue@.len() - i,
        {
            if self.ready_queue[i] == tid {
                present = true;
            }
            i += 1;
        }
        if !present {
            self.ready_queue.push_back(tid);
            assert(self@.last() == tid);
        }
        Ok(())
    }

    fn remove_thread(&mut self, tid: ThreadId) -> (result: KernelResult<()>)
        ensures
            result is Ok,
            final(self)@ == withdrawn(old(self)@, tid),
            !old(self)@.contains(tid) ==> final(self)@ == old(self)@,
            old(self)@.contains(tid) ==> takes_out_first(old(self)@, tid, final(self)@),
            old(self).wf() ==> final(self).wf() && !final(self)@.contains(tid),
    {
        let mut i: usize = 0;
        while i < self.ready_queue.len()
            invariant
                i <= self.ready_queue@.len(),
                self.ready_queue@ == old(self).ready_queue@,
                forall|j: int| 0 <= j < i ==> self.ready_queue@[j] != tid,
            decreases self.ready_queue@.len() - i,
        {
            if self.ready_queue[i] == tid {
                self.ready_queue.remove(i);
                proof {
                    lemma_withdrawn_first(old(self)@, tid);
                    if old(self).wf() {
                        lemma_withdrawn_no_duplicates(old(self)@, tid);
                    }
                }
                return Ok(());
            }
            i += 1;
        }
        proof {
            law_remove_absent_thread(old(self)@, tid);
        }
        Ok(())
    }

    fn schedule_next(&mut self) -> (next: Option<ThreadId>)
        ensures
            next == front(old(self)@),
            final(self)@ == rotated(old(self)@),
            old(self).wf() ==> final(self).wf(),
    {
        if let Some(tid) = self.ready_queue.pop_front() {
            self.ready_queue.push_back(tid);
            proof {
                lemma_rotated_no_duplicates(old(self)@);
            }
            Some(tid)
        } else {
            None
        }
    }
}

/// Withdrawing a thread from a queue without repeats leaves a queue without
/// repeats that no longer holds the thread.
pub proof fn lemma_withdrawn_no_duplicates(queue: Seq<ThreadId>, tid: ThreadId)
    requires
        queue.no_duplicates(),
    ensures
        withdrawn(queue, tid).no_duplicates(),
        !withdrawn(queue, tid).contains(tid),
        forall|other: ThreadId|
            other != tid ==> (#[trigger] withdrawn(queue, tid).contains(other) <==> queue.contains(
                other,
            )),
{
    queue.index_of_first_ensures(tid);
    let after = withdrawn(queue, tid);
    if let Some(i) = queue.index_of_first(tid) {
        assert forall|other: ThreadId| other != tid implies (#[trigger] after.contains(other)
            <==> queue.contains(other)) by {
            if queue.contains(other) {
                let b = choose|b: int| 0 <= b < queue.len() && queue[b] == other;
                let b0 = if b < i { b } else { b - 1 };
                assert(after[b0] == other);
            }
        }
    }
}

/// A dispatch keeps the same threads ready and introduces no repeats.
pub proof fn lemma_rotated_no_duplicates(queue: Seq<ThreadId>)
    ensures
        queue.no_duplicates() ==> rotated(queue).no_duplicates(),
        forall|tid: ThreadId| #[trigger] rotated(queue).contains(tid) <==> queue.contains(tid),
{
    let after = rotated(queue);
    if queue.len() > 0 {
        let n = queue.len() as int;
        assert forall|tid: ThreadId| #[trigger] after.contains(tid) <==> queue.contains(tid) by {
            if queue.contains(tid) {
                let b = choose|b: int| 0 <= b < queue.len() && queue[b] == tid;
                let a = if b == 0 { n - 1 } else { b - 1 };
                assert(after[a] == tid);
            }
        }
    }
}

/// After any number of dispatches the queue is the starting one turned by
/// that many places.
proof fn lemma_dispatched_index(queue: Seq<ThreadId>, rounds: nat)
    requires
        queue.len() > 0,
    ensures
        dispatched(queue, rounds).len() == queue.len(),
        forall|i: int|
            0 <= i < queue.len() ==> #[trigger] dispatched(queue, rounds)[i] == queue[(i + rounds)
                % (queue.len() as int)],
    decreases rounds,
{
    let n = queue.len() as int;
    if rounds == 0 {
        assert forall|i: int| 0 <= i < n implies #[trigger] dispatched(queue, rounds)[i] == queue[(i
            + rounds) % n] by {
            lemma_small_mod(i as nat, n as nat);
        }
    } else {
        let before = dispatched(queue, (rounds - 1) as nat);
        lemma_dispatched_index(queue, (rounds - 1) as nat);
        assert forall|i: int| 0 <= i < n implies #[trigger] dispatched(queue, rounds)[i] == queue[(i
            + rounds) % n] by {
            let turned = if i < n - 1 { i + 1 } else { 0 };
            assert(rotated(before)[i] == before[turned]);
            assert(turned == (i + 1) % n) by {
                if i < n - 1 {
                    lemma_small_mod((i + 1) as nat, n as nat);
                } else {
                    lemma_mod_self_0(n);
                }
            }
            assert(((i + 1) % n + (rounds - 1)) % n == (i + rounds) % n) by {
                lemma_add_mod_noop(i + 1, rounds - 1, n);
                lemma_add_mod_noop((i + 1) % n, rounds - 1, n);
                lemma_mod_twice(i + 1, n);
            }
        }
    }
}

/// Round robin is cyclic: with `n` threads ready and nothing added or
/// removed, the dispatch that follows `rounds` earlier ones hands out the
/// thread at position `rounds mod n` of the starting queue, and after `n`
/// dispatches the queue is back where it started.
pub proof fn law_round_robin_cycle(queue: Seq<ThreadId>, rounds: nat)
    requires
        queue.len() > 0,
    ensures
        front(dispatched(queue, rounds)) == Some(queue[(rounds % queue.len()) as int]),
        dispatched(queue, queue.len()) == queue,
{
    let n = queue.len() as int;
    lemma_dispatched_index(queue, rounds);
    lemma_dispatched_index(queue, queue.len());
    assert forall|i: int| 0 <= i < n implies dispatched(queue, queue.len())[i] == queue[i] by {
        lemma_mod_add_multiples_vanish(i, n);
        lemma_small_mod(i as nat, n as nat);
    }
}

/// Admitting a thread twice is the same as admitting it once, and in a queue
/// without repeats the thread then waits exactly once.
pub proof fn law_add_thread_idempotent(queue: Seq<ThreadId>, tid: ThreadId)
    ensures
        admitted(admitted(queue, tid), tid) == admitted(queue, tid),
        queue.no_duplicates() ==> waits_once(admitted(queue, tid), tid),
{
    let once = admitted(queue, tid);
    if !queue.contains(tid) {
        assert(once.last() == tid);
    }
}

/// Withdrawing a thread that is not waiting changes nothing.
pub proof fn law_remove_absent_thread(queue: Seq<ThreadId>, tid: ThreadId)
    requires
        !queue.contains(tid),
    ensures
        withdrawn(queue, tid) == queue,
{
    queue.index_of_first_ensures(tid);
}

/// Withdrawing a thread that is waiting takes out its first occurrence.
pub proof fn lemma_withdrawn_first(queue: Seq<ThreadId>, tid: ThreadId)
    requires
        queue.contains(tid),
    ensures
        takes_out_first(queue, tid, withdrawn(queue, tid)),
{
    queue.index_of_first_ensures(tid);
    assert(first_at(queue, tid, queue.index_of_first(tid).unwrap()));
}

} // verus!
