//! The Command Bus and its response slots.
//!
//! Every submitted command is queued in order and paired with a fresh
//! response slot. The dispatcher takes commands from the front and
//! resolves each command's slot with exactly one reply; a slot whose
//! command will never be answered (backend unavailable, shutdown) is
//! abandoned instead, which the waiting caller observes as
//! `ChannelClosed`. A slot never holds two values, and a value is
//! observed at most once.

use vstd::prelude::*;
use crate::commands::{Reply, WarpCmd};
use crate::error::ErrorKind;

verus! {

/// The lifecycle of one response slot.
#[derive(Debug)]
pub enum SlotState {
    /// Created with its command; no value yet.
    Pending,
    /// Resolved with the command's one reply, not yet observed.
    Filled(Reply),
    /// The resolver was torn down without replying; observation fails
    /// with `ChannelClosed`.
    Abandoned,
    /// The value (or the abandonment) was observed; nothing more ever
    /// comes out.
    Taken,
}

/// A queued command and the slot its reply resolves.
#[derive(Debug)]
pub struct QueuedCommand {
    pub cmd: WarpCmd,
    pub slot: usize,
}

/// How one bus operation may change the slot table: a submission appends
/// a pending slot; a resolution fills a pending slot; an abandonment
/// abandons a pending slot; an observation takes a non-pending slot;
/// teardown abandons every pending slot. Every operation of
/// `CommandBus` promises this of its slot table.
pub open spec fn slots_step(pre: Seq<SlotState>, post: Seq<SlotState>) -> bool {
    post == pre.push(SlotState::Pending) || (exists|i: int, v: Reply|
        0 <= i < pre.len() && pre[i] is Pending && post == pre.update(i, SlotState::Filled(v))) || (
    exists|i: int|
        0 <= i < pre.len() && pre[i] is Pending && post == pre.update(i, SlotState::Abandoned)) || (
    exists|i: int|
        0 <= i < pre.len() && !(pre[i] is Pending) && post == pre.update(i, SlotState::Taken)) || (
    post.len() == pre.len() && forall|i: int|
        0 <= i < pre.len() ==> post[i] == (match pre[i] {
            SlotState::Pending => SlotState::Abandoned,
            other => other,
        }))
}

/// Exactly-once law for response slots: whatever operation the bus
/// performs, a slot that holds a value keeps that value until it is
/// observed, is never overwritten with another value, and once observed
/// (or abandoned) never becomes pending or filled again. So at most one
/// value is ever observed on a slot; and since the dispatcher resolves or
/// abandons the slot of every command it takes, exactly one value is
/// observed per command while the dispatcher lives, and `ChannelClosed`
/// otherwise.
pub proof fn lemma_slot_exactly_once(pre: Seq<SlotState>, post: Seq<SlotState>, i: int, v: Reply)
    requires
        slots_step(pre, post),
        0 <= i < pre.len(),
    ensures
        pre[i] == SlotState::Filled(v) ==> (post[i] == SlotState::Filled(v) || post[i]
            == SlotState::Taken),
        pre[i] is Taken ==> post[i] is Taken,
        pre[i] is Abandoned ==> (post[i] is Abandoned || post[i] is Taken),
{
    if post == pre.push(SlotState::Pending) {
        assert(post[i] == pre[i]);
    }
}

/// The Command Bus: an unbounded multi-producer queue of commands with
/// their response slots, consumed in order by the single dispatcher.
#[derive(Debug)]
pub struct CommandBus {
    queue: Vec<QueuedCommand>,
    slots: Vec<SlotState>,
}

impl CommandBus {
    /// The commands waiting for the dispatcher, oldest first.
    pub closed spec fn spec_queue(self) -> Seq<QueuedCommand> {
        self.queue@
    }

    /// All slots ever created, by slot id.
    pub closed spec fn spec_slots(self) -> Seq<SlotState> {
        self.slots@
    }

    /// Every queued command's slot exists and is still pending, and no
    /// two queued commands share a slot.
    pub open spec fn wf(self) -> bool {
        (forall|k: int|
            0 <= k < self.spec_queue().len() ==> (#[trigger] self.spec_queue()[k].slot
                < self.spec_slots().len() && self.spec_slots()[self.spec_queue()[k].slot as int]
                is Pending)) && (forall|k: int, l: int|
            0 <= k < l < self.spec_queue().len() ==> #[trigger] self.spec_queue()[k].slot
                != #[trigger] self.spec_queue()[l].slot)
    }

    /// An empty bus with no slots.
    pub fn new() -> (r: CommandBus)
        ensures
            r.wf(),
            r.spec_queue() =~= Seq::<QueuedCommand>::empty(),
            r.spec_slots() =~= Seq::<SlotState>::empty(),
    {
        CommandBus { queue: Vec::new(), slots: Vec::new() }
    }

    /// Foreground side: enqueues a command behind the already queued
    /// ones, paired with a fresh pending slot, and hands the slot id
    /// back. Never blocks and never drops a command.
    pub fn submit(&mut self, cmd: WarpCmd) -> (slot: usize)
        requires
            old(self).wf(),
            old(self).spec_slots().len() < usize::MAX,
        ensures
            final(self).wf(),
            slots_step(old(self).spec_slots(), final(self).spec_slots()),
            slot == old(self).spec_slots().len(),
            final(self).spec_slots() == old(self).spec_slots().push(SlotState::Pending),
            final(self).spec_queue() == old(self).spec_queue().push(
                QueuedCommand { cmd, slot },
            ),
    {
        let slot = self.slots.len();
        self.slots.push(SlotState::Pending);
        self.queue.push(QueuedCommand { cmd, slot });
        assert forall|k: int|
            0 <= k < self.spec_queue().len() implies (#[trigger] self.spec_queue()[k].slot
            < self.spec_slots().len() && self.spec_slots()[self.spec_queue()[k].slot as int]
            is Pending) by {
            if k < old(self).spec_queue().len() {
                assert(self.spec_queue()[k] == old(self).spec_queue()[k]);
                assert(self.spec_slots()[self.spec_queue()[k].slot as int] == old(
                    self,
                ).spec_slots()[self.spec_queue()[k].slot as int]);
            }
        }
        slot
    }

    /// Whether a command is waiting.
    pub fn has_next(&self) -> (r: bool)
        ensures
            r == (self.spec_queue().len() > 0),
    {
        self.queue.len() > 0
    }

    /// Dispatcher side: a borrow of the oldest queued command, so the
    /// host can perform its backend calls before taking it.
    pub fn front(&self) -> (r: Option<&WarpCmd>)
        ensures
            match r {
                Some(c) => self.spec_queue().len() > 0 && *c == self.spec_queue()[0].cmd,
                None => self.spec_queue().len() == 0,
            },
    {
        if self.queue.len() > 0 {
            Some(&self.queue[0].cmd)
        } else {
            None
        }
    }

    /// Dispatcher side: takes the oldest queued command. Its slot stays
    /// pending — and is now nobody else's to resolve — until the taker
    /// resolves or abandons it.
    pub fn take_front(&mut self) -> (r: Option<QueuedCommand>)
        requires
            old(self).wf(),
        ensures
            final(self).wf(),
            final(self).spec_slots() == old(self).spec_slots(),
            match r {
                Some(qc) => old(self).spec_queue().len() > 0 && qc == old(self).spec_queue()[0]
                    && final(self).spec_queue() == old(self).spec_queue().drop_first() && qc.slot
                    < final(self).spec_slots().len() && final(self).spec_slots()[qc.slot as int]
                    is Pending && (forall|k: int|
                    0 <= k < final(self).spec_queue().len()
                        ==> (#[trigger] final(self).spec_queue()[k]).slot != qc.slot),
                None => old(self).spec_queue().len() == 0 && final(self).spec_queue() == old(
                    self).spec_queue(),
            },
    {
        if self.queue.len() == 0 {
            return None;
        }
        let qc = self.queue.remove(0);
        assert forall|k: int|
            0 <= k < self.spec_queue().len() implies (#[trigger] self.spec_queue()[k]).slot
            != qc.slot by {
            assert(self.spec_queue()[k] == old(self).spec_queue()[k + 1]);
        }
        Some(qc)
    }

    /// Dispatcher side: resolves a pending slot with its one reply. A
    /// slot can be resolved only while pending, so no slot ever carries
    /// two values.
    pub fn resolve(&mut self, slot: usize, reply: Reply)
        requires
            old(self).wf(),
            slot < old(self).spec_slots().len(),
            old(self).spec_slots()[slot as int] is Pending,
            forall|k: int|
                0 <= k < old(self).spec_queue().len()
                    ==> (#[trigger] old(self).spec_queue()[k]).slot != slot,
        ensures
            final(self).wf(),
            slots_step(old(self).spec_slots(), final(self).spec_slots()),
            final(self).spec_queue() == old(self).spec_queue(),
            final(self).spec_slots() == old(self).spec_slots().update(
                slot as int,
                SlotState::Filled(reply),
            ),
    {
        self.slots.remove(slot);
        self.slots.insert(slot, SlotState::Filled(reply));
        assert(self.spec_slots() =~= old(self).spec_slots().update(
            slot as int,
            SlotState::Filled(reply),
        ));
    }

    /// Dispatcher side: walks away from a pending slot without a value
    /// (the command cannot be answered). The waiting caller observes
    /// `ChannelClosed`.
    pub fn abandon(&mut self, slot: usize)
        requires
            old(self).wf(),
            slot < old(self).spec_slots().len(),
            old(self).spec_slots()[slot as int] is Pending,
            forall|k: int|
                0 <= k < old(self).spec_queue().len()
                    ==> (#[trigger] old(self).spec_queue()[k]).slot != slot,
        ensures
            final(self).wf(),
            slots_step(old(self).spec_slots(), final(self).spec_slots()),
            final(self).spec_queue() == old(self).spec_queue(),
            final(self).spec_slots() == old(self).spec_slots().update(
                slot as int,
                SlotState::Abandoned,
            ),
    {
        self.slots.remove(slot);
        self.slots.insert(slot, SlotState::Abandoned);
        assert(self.spec_slots() =~= old(self).spec_slots().update(
            slot as int,
            SlotState::Abandoned,
        ));
    }

    /// Whether the slot exists and is resolved, abandoned or already
    /// observed — that is, whether an observation would not block. A
    /// caller outside the library checks this before observing.
    pub fn poll(&self, slot: usize) -> (r: bool)
        ensures
            r == (slot < self.spec_slots().len() && !(self.spec_slots()[slot as int]
                is Pending)),
    {
        if slot < self.slots.len() {
            match &self.slots[slot] {
                SlotState::Pending => false,
                _ => true,
            }
        } else {
            false
        }
    }

    /// Foreground side: the one observation of a slot. A filled slot
    /// yields its value, exactly once; an abandoned slot, or one already
    /// observed, fails with `ChannelClosed`.
    pub fn await_result(&mut self, slot: usize) -> (r: Result<Reply, ErrorKind>)
        requires
            old(self).wf(),
            slot < old(self).spec_slots().len(),
            !(old(self).spec_slots()[slot as int] is Pending),
        ensures
            final(self).wf(),
            slots_step(old(self).spec_slots(), final(self).spec_slots()),
            final(self).spec_queue() == old(self).spec_queue(),
            final(self).spec_slots() == old(self).spec_slots().update(
                slot as int,
                SlotState::Taken,
            ),
            match old(self).spec_slots()[slot as int] {
                SlotState::Filled(v) => r == Ok::<Reply, ErrorKind>(v),
                _ => r == Err::<Reply, ErrorKind>(ErrorKind::ChannelClosed),
            },
    {
        let cur = self.slots.remove(slot);
        self.slots.insert(slot, SlotState::Taken);
        assert(self.spec_slots() =~= old(self).spec_slots().update(slot as int, SlotState::Taken));
        assert forall|k: int|
            0 <= k < self.spec_queue().len() implies (#[trigger] self.spec_queue()[k].slot
            < self.spec_slots().len() && self.spec_slots()[self.spec_queue()[k].slot as int]
            is Pending) by {
            assert(old(self).spec_queue()[k].slot != slot);
        }
        match cur {
            SlotState::Filled(v) => Ok(v),
            SlotState::Pending => Err(ErrorKind::ChannelClosed),
            SlotState::Abandoned => Err(ErrorKind::ChannelClosed),
            SlotState::Taken => Err(ErrorKind::ChannelClosed),
        }
    }

    /// Teardown: every not-yet-resolved slot is abandoned and the queue
    /// is dropped, so every waiting caller observes `ChannelClosed`
    /// rather than waiting forever.
    pub fn shutdown(&mut self)
        requires
            old(self).wf(),
        ensures
            final(self).wf(),
            slots_step(old(self).spec_slots(), final(self).spec_slots()),
            final(self).spec_queue().len() == 0,
            final(self).spec_slots().len() == old(self).spec_slots().len(),
            forall|i: int|
                0 <= i < old(self).spec_slots().len() ==> final(self).spec_slots()[i] == (
                match old(self).spec_slots()[i] {
                    SlotState::Pending => SlotState::Abandoned,
                    other => other,
                }),
    {
        self.queue = Vec::new();
        let n = self.slots.len();
        let mut i: usize = 0;
        while i < n
            invariant
                n == self.spec_slots().len(),
                self.spec_queue().len() == 0,
                i <= n,
                forall|k: int|
                    0 <= k < i ==> self.spec_slots()[k] == (match old(self).spec_slots()[k] {
                        SlotState::Pending => SlotState::Abandoned,
                        other => other,
                    }),
                forall|k: int| i <= k < n ==> self.spec_slots()[k] == old(self).spec_slots()[k],
            decreases n - i,
        {
            let pending = match &self.slots[i] {
                SlotState::Pending => true,
                _ => false,
            };
            if pending {
                let ghost prev = self.spec_slots();
                self.slots.remove(i);
                self.slots.insert(i, SlotState::Abandoned);
                proof {
                    assert(self.spec_slots() =~= prev.update(i as int, SlotState::Abandoned));
                }
            }
            i = i + 1;
        }
    }
}

} // verus!
