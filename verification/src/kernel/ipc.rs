//! Message passing between processes: one first-in-first-out mailbox per
//! receiver.

use std::collections::{HashMap, VecDeque};
use vstd::prelude::*;

use crate::kernel::id::{next_after, IdGenerator};
use crate::kernel::process::ProcessId;
use crate::kernel::{KernelError, KernelResult};

verus! {

pub type MessageId = u64;

/// Draws the next message identifier from `ids`.
pub fn generate_mid(ids: &mut IdGenerator) -> (mid: MessageId)
    ensures
        mid == old(ids).next,
        final(ids).next == next_after(old(ids).next),
{
    ids.next_id()
}

#[derive(Debug)]
pub struct Message {
    pub id: MessageId,
    pub sender_pid: ProcessId,
    pub receiver_pid: ProcessId,
    /// Opaque bytes; the bus never looks inside.
    pub payload: Vec<u8>,
}

/// What a message says, with its payload as a sequence of bytes.
pub struct MessageView {
    pub id: MessageId,
    pub sender_pid: ProcessId,
    pub receiver_pid: ProcessId,
    pub payload: Seq<u8>,
}

impl View for Message {
    type V = MessageView;

    open spec fn view(&self) -> MessageView {
        MessageView {
            id: self.id,
            sender_pid: self.sender_pid,
            receiver_pid: self.receiver_pid,
            payload: self.payload@,
        }
    }
}

impl Clone for Message {
    fn clone(&self) -> (copy: Self)
        ensures
            copy@ == self@,
    {
        Message {
            id: self.id,
            sender_pid: self.sender_pid,
            receiver_pid: self.receiver_pid,
            payload: self.payload.clone(),
        }
    }
}

impl Message {
    /// A message from `sender_pid` to `receiver_pid`, stamped with the next
    /// identifier of `ids`.
    pub fn new(
        ids: &mut IdGenerator,
        sender_pid: ProcessId,
        receiver_pid: ProcessId,
        payload: Vec<u8>,
    ) -> (message: Self)
        ensures
            message.id == old(ids).next,
            message.sender_pid == sender_pid,
            message.receiver_pid == receiver_pid,
            message.payload == payload,
            final(ids).next == next_after(old(ids).next),
    {
        Message { id: generate_mid(ids), sender_pid, receiver_pid, payload }
    }
}

/// The mailboxes of a bus: for each receiver that was ever written to, the
/// messages waiting for it, oldest first.
pub type Mailboxes = Map<ProcessId, Seq<MessageView>>;

/// The messages waiting for `pid`; none if nobody has written to it yet.
pub open spec fn mailbox(boxes: Mailboxes, pid: ProcessId) -> Seq<MessageView> {
    if boxes.contains_key(pid) {
        boxes[pid]
    } else {
        Seq::empty()
    }
}

/// The mailboxes once `message` has been sent: it joins the back of its
/// receiver's mailbox, which comes into being if need be.
pub open spec fn delivered(boxes: Mailboxes, message: MessageView) -> Mailboxes {
    boxes.insert(message.receiver_pid, mailbox(boxes, message.receiver_pid).push(message))
}

/// The message a receive on `pid` hands out: the oldest one waiting.
pub open spec fn oldest(boxes: Mailboxes, pid: ProcessId) -> Option<MessageView> {
    if mailbox(boxes, pid).len() > 0 {
        Some(mailbox(boxes, pid).first())
    } else {
        None
    }
}

/// The mailboxes once a receive on `pid` has taken the oldest message out.
/// With nothing waiting they stay as they are.
pub open spec fn collected(boxes: Mailboxes, pid: ProcessId) -> Mailboxes {
    if mailbox(boxes, pid).len() > 0 {
        boxes.insert(pid, mailbox(boxes, pid).drop_first())
    } else {
        boxes
    }
}

/// Every waiting message lies in the mailbox of the process it is addressed
/// to.
pub open spec fn well_addressed(boxes: Mailboxes) -> bool {
    forall|pid: ProcessId, i: int|
        #![trigger boxes[pid][i]]
        boxes.contains_key(pid) && 0 <= i < boxes[pid].len() ==> boxes[pid][i].receiver_pid == pid
}

/// The views of a run of messages, in the same order.
pub open spec fn message_views(messages: Seq<Message>) -> Seq<MessageView> {
    messages.map_values(|message: Message| message@)
}

/// Message exchange offered to processes.
pub trait MessagePassing {
    /// Sends a message to its receiver.
    fn send_message(&mut self, message: Message) -> KernelResult<()>;

    /// Takes the oldest message waiting for `receiver_pid`; fails with
    /// `NotFound` when none is waiting. Never blocks.
    fn receive_message(&mut self, receiver_pid: ProcessId) -> KernelResult<Message>;

    /// Like `receive_message`, but reports an empty mailbox as `Ok(None)`.
    fn try_receive_message(&mut self, receiver_pid: ProcessId) -> KernelResult<Option<Message>>;
}

#[derive(Debug)]
pub struct SystemMessageBus {
    /// Incoming messages per receiver, created on the first send to it.
    pub queues: HashMap<ProcessId, VecDeque<Message>>,
}

impl View for SystemMessageBus {
    type V = Mailboxes;

    open spec fn view(&self) -> Mailboxes {
        self.queues@.map_values(|queue: VecDeque<Message>| message_views(queue@))
    }
}

impl Default for SystemMessageBus {
    fn default() -> (bus: Self)
        ensures
            bus@ == Map::<ProcessId, Seq<MessageView>>::empty(),
    {
        SystemMessageBus { queues: HashMap::new() }
    }
}

impl SystemMessageBus {
    /// The bus invariant: see `well_addressed`.
    pub open spec fn wf(&self) -> bool {
        well_addressed(self@)
    }

    /// A bus with no mailboxes.
    pub fn new() -> (bus: Self)
        ensures
            bus@ == Map::<ProcessId, Seq<MessageView>>::empty(),
            bus.wf(),
    {
        Self::default()
    }

    /// Takes the oldest message out of the mailbox of `receiver_pid`, if one
    /// is waiting. A mailbox that exists stays in place when it runs empty.
    fn take_oldest(&mut self, receiver_pid: ProcessId) -> (taken: Option<Message>)
        ensures
            final(self)@ == collected(old(self)@, receiver_pid),
            match oldest(old(self)@, receiver_pid) {
                Some(first) => taken matches Some(message) && message@ == first,
                None => taken is None,
            },
            old(self).wf() ==> final(self).wf(),
            old(self).wf() ==> (taken matches Some(message) ==> message.receiver_pid
                == receiver_pid),
    {
        match self.queues.remove(&receiver_pid) {
            Some(mut queue) => {
                let ghost waiting = queue@;
                let taken = queue.pop_front();
                assert(waiting.len() > 0 ==> message_views(queue@) =~= message_views(
                    waiting,
                ).drop_first());
                self.queues.insert(receiver_pid, queue);
                proof {
                    if old(self).wf() {
                        lemma_collected_well_addressed(old(self)@, receiver_pid);
                    }
                }
                taken
            },
            None => None,
        }
    }
}

impl MessagePassing for SystemMessageBus {
    fn send_message(&mut self, message: Message) -> (result: KernelResult<()>)
        ensures
            result is Ok,
            final(self)@ == delivered(old(self)@, message@),
            old(self).wf() ==> final(self).wf(),
    {
        let receiver_pid = message.receiver_pid;
        let mut queue = match self.queues.remove(&receiver_pid) {
            Some(queue) => queue,
            None => VecDeque::new(),
        };
        let ghost waiting = queue@;
        assert(message_views(waiting) =~= mailbox(old(self)@, receiver_pid));
        queue.push_back(message);
        assert(message_views(queue@) =~= message_views(waiting).push(message@));
        self.queues.insert(receiver_pid, queue);
        assert(self@ =~= delivered(old(self)@, message@));
        proof {
            if old(self).wf() {
                lemma_delivered_well_addressed(old(self)@, message@);
            }
        }
        Ok(())
    }

    fn receive_message(&mut self, receiver_pid: ProcessId) -> (result: KernelResult<Message>)
        ensures
            final(self)@ == collected(old(self)@, receiver_pid),
            match oldest(old(self)@, receiver_pid) {
                Some(first) => result matches Ok(message) && message@ == first,
                None => result == Err::<Message, KernelError>(KernelError::NotFound),
            },
            old(self).wf() ==> final(self).wf(),
            old(self).wf() ==> (result matches Ok(message) ==> message.receiver_pid
                == receiver_pid),
    {
        match self.take_oldest(receiver_pid) {
            Some(message) => Ok(message),
            None => Err(KernelError::NotFound),
        }
    }

    fn try_receive_message(&mut self, receiver_pid: ProcessId) -> (result: KernelResult<
        Option<Message>,
    >)
        ensures
            final(self)@ == collected(old(self)@, receiver_pid),
            match oldest(old(self)@, receiver_pid) {
                Some(first) => result matches Ok(Some(message)) && message@ == first,
                None => result matches Ok(None),
            },
            old(self).wf() ==> final(self).wf(),
            old(self).wf() ==> (result matches Ok(Some(message)) ==> message.receiver_pid
                == receiver_pid),
    {
        Ok(self.take_oldest(receiver_pid))
    }
}

/// Sending keeps every message in the mailbox of its receiver.
pub proof fn lemma_delivered_well_addressed(boxes: Mailboxes, message: MessageView)
    requires
        well_addressed(boxes),
    ensures
        well_addressed(delivered(boxes, message)),
{
    let after = delivered(boxes, message);
    assert forall|pid: ProcessId, i: int|
        #![trigger after[pid][i]]
        after.contains_key(pid) && 0 <= i < after[pid].len() implies after[pid][i].receiver_pid
        == pid by {
        if pid != message.receiver_pid || i < mailbox(boxes, pid).len() {
            assert(after[pid][i] == boxes[pid][i]);
        }
    }
}

/// Receiving keeps every message in the mailbox of its receiver, and what it
/// hands out was addressed to the process that asked.
pub proof fn lemma_collected_well_addressed(boxes: Mailboxes, pid: ProcessId)
    requires
        well_addressed(boxes),
    ensures
        well_addressed(collected(boxes, pid)),
        oldest(boxes, pid) matches Some(message) ==> message.receiver_pid == pid,
{
    let after = collected(boxes, pid);
    assert forall|other: ProcessId, i: int|
        #![trigger after[other][i]]
        after.contains_key(other) && 0 <= i < after[other].len() implies after[other][i]
        .receiver_pid == other by {
        if other == pid && mailbox(boxes, pid).len() > 0 {
            assert(after[other][i] == boxes[pid][i + 1]);
        } else {
            assert(after[other][i] == boxes[other][i]);
        }
    }
    if mailbox(boxes, pid).len() > 0 {
        assert(boxes[pid][0].receiver_pid == pid);
    }
}

/// A mailbox is a queue: a send puts the message at its back, a receive
/// hands out its front and leaves the rest in order.
pub proof fn law_mailbox_is_fifo(boxes: Mailboxes, message: MessageView, pid: ProcessId)
    ensures
        mailbox(delivered(boxes, message), message.receiver_pid) == mailbox(
            boxes,
            message.receiver_pid,
        ).push(message),
        mailbox(boxes, pid).len() > 0 ==> oldest(boxes, pid) == Some(mailbox(boxes, pid)[0])
            && mailbox(collected(boxes, pid), pid) == mailbox(boxes, pid).drop_first(),
        mailbox(boxes, pid).len() == 0 ==> oldest(boxes, pid) is None && collected(boxes, pid)
            == boxes,
{
}

/// Two messages sent one after the other to a receiver with nothing waiting
/// are received in the order they were sent, each exactly as sent, whoever
/// sent them; after that nothing is waiting.
pub proof fn law_fifo_messaging(boxes: Mailboxes, first: MessageView, second: MessageView)
    requires
        first.receiver_pid == second.receiver_pid,
        mailbox(boxes, first.receiver_pid).len() == 0,
    ensures
        ({
            let pid = first.receiver_pid;
            let sent = delivered(delivered(boxes, first), second);
            let once = collected(sent, pid);
            let twice = collected(once, pid);
            &&& oldest(sent, pid) == Some(first)
            &&& oldest(once, pid) == Some(second)
            &&& oldest(twice, pid) is None
            &&& collected(twice, pid) == twice
        }),
{
    let pid = first.receiver_pid;
    let sent = delivered(delivered(boxes, first), second);
    assert(mailbox(sent, pid) =~= seq![first, second]);
    assert(mailbox(collected(sent, pid), pid) =~= seq![second]);
}

/// Mailboxes are isolated: a message sent to one process changes nothing
/// that a receive on another process observes, and a receive on one process
/// leaves the mailbox of every other process alone.
pub proof fn law_isolation(boxes: Mailboxes, message: MessageView, other: ProcessId)
    requires
        other != message.receiver_pid,
    ensures
        mailbox(delivered(boxes, message), other) == mailbox(boxes, other),
        oldest(delivered(boxes, message), other) == oldest(boxes, other),
        mailbox(collected(boxes, message.receiver_pid), other) == mailbox(boxes, other),
{
}

} // verus!
