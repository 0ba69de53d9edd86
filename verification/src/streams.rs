//! The Stream Manager: owner of the live per-conversation subscriptions.
//!
//! It keeps at most one handle per conversation id. Attaching a stream
//! to an id that already has one detaches the old handle first, so two
//! streams of one conversation never run concurrently (they would
//! duplicate events). The host runtime performs the actual subscribing,
//! spawning and cancelling; the manager decides which task to spawn and
//! which to cancel, and records the handles.

use vstd::prelude::*;
use crate::error::ErrorKind;
use crate::events::{EventBus, MessageEvent, RawMessageEvent, WarpEvent};

verus! {

/// A live subscription: the conversation it serves and the host task
/// that forwards its items.
#[derive(Clone, Copy, PartialEq, Eq, Structural, Debug)]
pub struct StreamHandle {
    pub conversation_id: u128,
    pub task: u64,
}

/// Whether some handle in `s` serves conversation `id`.
pub open spec fn has_handle(s: Seq<StreamHandle>, id: u128) -> bool {
    exists|i: int| 0 <= i < s.len() && s[i].conversation_id == id
}

/// All handles serve distinct conversations.
pub open spec fn handles_unique(s: Seq<StreamHandle>) -> bool {
    forall|i: int, j: int| 0 <= i < j < s.len() ==> s[i].conversation_id != s[j].conversation_id
}

/// What the host runtime must do after a successful attach: spawn the
/// forwarding task `task`, and first cancel `replaced` if present.
#[derive(Clone, Copy, PartialEq, Eq, Structural, Debug)]
pub struct AttachEffect {
    pub task: u64,
    pub replaced: Option<u64>,
}

/// The handle map. Task numbers are issued by the manager and never
/// reused.
#[derive(Clone, Debug)]
pub struct StreamManager {
    handles: Vec<StreamHandle>,
    next_task: u64,
}

impl View for StreamManager {
    type V = Seq<StreamHandle>;

    closed spec fn view(&self) -> Seq<StreamHandle> {
        self.handles@
    }
}

impl StreamManager {
    /// At most one handle per conversation id.
    pub open spec fn wf(self) -> bool {
        handles_unique(self@)
    }

    pub closed spec fn spec_next_task(self) -> u64 {
        self.next_task
    }

    /// A manager with no live subscriptions.
    pub fn new() -> (r: StreamManager)
        ensures
            r.wf(),
            r@ =~= Seq::<StreamHandle>::empty(),
            r.spec_next_task() == 0,
    {
        StreamManager { handles: Vec::new(), next_task: 0 }
    }

    /// Index of the handle serving `id`, if one does.
    fn find(&self, id: u128) -> (r: Option<usize>)
        ensures
            match r {
                Some(i) => i < self@.len() && self@[i as int].conversation_id == id,
                None => !has_handle(self@, id),
            },
    {
        let mut j: usize = 0;
        while j < self.handles.len()
            invariant
                j <= self@.len(),
                forall|k: int| 0 <= k < j ==> self@[k].conversation_id != id,
            decreases self@.len() - j,
        {
            if self.handles[j].conversation_id == id {
                return Some(j);
            }
            j = j + 1;
        }
        None
    }

    /// Whether a subscription for `id` is currently live.
    pub fn contains(&self, id: u128) -> (r: bool)
        ensures
            r == has_handle(self@, id),
    {
        self.find(id).is_some()
    }

    /// Attaches a stream for `conversation_id`. `accepted` is the
    /// backend's answer to opening the subscription (it rejects ids whose
    /// conversation the caller is no participant of). On acceptance the
    /// handle for the id is replaced — never doubled — and the effect
    /// names the task to spawn and the detached task to cancel. On
    /// rejection nothing changes and the attach fails with
    /// `StreamOpenError`.
    pub fn add_stream(&mut self, conversation_id: u128, accepted: bool) -> (r: Result<
        AttachEffect,
        ErrorKind,
    >)
        requires
            old(self).wf(),
            old(self).spec_next_task() < u64::MAX,
        ensures
            final(self).wf(),
            match r {
                Ok(eff) => accepted && eff.task == old(self).spec_next_task() && final(
                    self).spec_next_task() == old(self).spec_next_task() + 1 && has_handle(
                    final(self)@,
                    conversation_id,
                ) && conv_handle_upserted(
                    old(self)@,
                    final(self)@,
                    StreamHandle { conversation_id, task: eff.task },
                ) && (match eff.replaced {
                    Some(t) => exists|i: int|
                        0 <= i < old(self)@.len() && old(self)@[i] == (StreamHandle {
                            conversation_id,
                            task: t,
                        }),
                    None => !has_handle(old(self)@, conversation_id),
                }),
                Err(e) => !accepted && e == ErrorKind::StreamOpenError && *final(self) == *old(self),
            },
    {
        if !accepted {
            return Err(ErrorKind::StreamOpenError);
        }
        let task = self.next_task;
        self.next_task = self.next_task + 1;
        let handle = StreamHandle { conversation_id, task };
        match self.find(conversation_id) {
            Some(i) => {
                let replaced = self.handles[i].task;
                self.handles.set(i, handle);
                assert(self@[i as int].conversation_id == conversation_id);
                Ok(AttachEffect { task, replaced: Some(replaced) })
            }
            None => {
                self.handles.push(handle);
                assert(self@[self@.len() - 1].conversation_id == conversation_id);
                Ok(AttachEffect { task, replaced: None })
            }
        }
    }

    /// Detaches the stream of `conversation_id`, naming the task to
    /// cancel; idempotent if none is live.
    pub fn remove_stream(&mut self, conversation_id: u128) -> (r: Option<u64>)
        requires
            old(self).wf(),
        ensures
            final(self).wf(),
            final(self).spec_next_task() == old(self).spec_next_task(),
            !has_handle(final(self)@, conversation_id),
            match r {
                Some(t) => exists|i: int|
                    0 <= i < old(self)@.len() && old(self)@[i] == (StreamHandle {
                        conversation_id,
                        task: t,
                    }) && final(self)@ == old(self)@.remove(i),
                None => !has_handle(old(self)@, conversation_id) && final(self)@ == old(self)@,
            },
    {
        match self.find(conversation_id) {
            Some(i) => {
                let t = self.handles[i].task;
                self.handles.remove(i);
                assert forall|a: int|
                    0 <= a < self@.len() implies self@[a].conversation_id != conversation_id by {
                    if a < i {
                        assert(self@[a] == old(self)@[a]);
                    } else {
                        assert(self@[a] == old(self)@[a + 1]);
                    }
                }
                Some(t)
            }
            None => None,
        }
    }
}

/// `new` is `prev` with `h` either replacing the handle of the same
/// conversation or appended if none served it.
pub open spec fn conv_handle_upserted(
    prev: Seq<StreamHandle>,
    new: Seq<StreamHandle>,
    h: StreamHandle,
) -> bool {
    if has_handle(prev, h.conversation_id) {
        exists|i: int|
            0 <= i < prev.len() && prev[i].conversation_id == h.conversation_id && new
                == prev.update(i, h)
    } else {
        new == prev.push(h)
    }
}

/// Membership after an upsert: exactly the old conversations plus the
/// new one.
pub proof fn lemma_handle_upserted_membership(
    prev: Seq<StreamHandle>,
    new: Seq<StreamHandle>,
    h: StreamHandle,
)
    requires
        conv_handle_upserted(prev, new, h),
    ensures
        forall|x: u128| has_handle(new, x) <==> (has_handle(prev, x) || x == h.conversation_id),
{
    assert forall|x: u128| has_handle(new, x) implies (has_handle(prev, x) || x
        == h.conversation_id) by {
        let w = choose|i: int| 0 <= i < new.len() && new[i].conversation_id == x;
        if has_handle(prev, h.conversation_id) {
            let u = choose|i: int|
                0 <= i < prev.len() && prev[i].conversation_id == h.conversation_id && new
                    == prev.update(i, h);
            if w != u {
                assert(new[w] == prev[w]);
            }
        } else {
            if w < prev.len() {
                assert(new[w] == prev[w]);
            }
        }
    }
    assert forall|x: u128| (has_handle(prev, x) || x == h.conversation_id) implies has_handle(
        new,
        x,
    ) by {
        if has_handle(prev, h.conversation_id) {
            let u = choose|i: int|
                0 <= i < prev.len() && prev[i].conversation_id == h.conversation_id && new
                    == prev.update(i, h);
            assert(new[u].conversation_id == h.conversation_id);
            if x != h.conversation_id && has_handle(prev, x) {
                let w = choose|i: int| 0 <= i < prev.len() && prev[i].conversation_id == x;
                assert(new[w] == prev[w]);
            }
        } else {
            assert(new[new.len() - 1] == h);
            if x != h.conversation_id && has_handle(prev, x) {
                let w = choose|i: int| 0 <= i < prev.len() && prev[i].conversation_id == x;
                assert(new[w] == prev[w]);
            }
        }
    }
}

/// Membership after a removal from a well-formed map: exactly the old
/// conversations minus the removed one.
pub proof fn lemma_handle_removed_membership(prev: Seq<StreamHandle>, new: Seq<StreamHandle>, i: int)
    requires
        handles_unique(prev),
        0 <= i < prev.len(),
        new == prev.remove(i),
    ensures
        forall|x: u128|
            has_handle(new, x) <==> (has_handle(prev, x) && x != prev[i].conversation_id),
{
    assert forall|x: u128| has_handle(new, x) implies (has_handle(prev, x) && x
        != prev[i].conversation_id) by {
        let w = choose|k: int| 0 <= k < new.len() && new[k].conversation_id == x;
        if w < i {
            assert(new[w] == prev[w]);
        } else {
            assert(new[w] == prev[w + 1]);
        }
    }
    assert forall|x: u128| (has_handle(prev, x) && x != prev[i].conversation_id) implies has_handle(
        new,
        x,
    ) by {
        let w = choose|k: int| 0 <= k < prev.len() && prev[k].conversation_id == x;
        if w < i {
            assert(new[w] == prev[w]);
        } else {
            assert(new[w - 1] == prev[w]);
        }
    }
}

/// Uniqueness law: in a well-formed manager at most one handle exists
/// per conversation id — any two handles of the same conversation are
/// the same entry. Together with `add_stream`'s postcondition (the map
/// stays well-formed and afterwards some handle serves the id) this says
/// that attaching a stream twice to one id leaves exactly one live
/// handle.
pub proof fn lemma_stream_handle_unique(s: Seq<StreamHandle>, id: u128, i: int, j: int)
    requires
        handles_unique(s),
        0 <= i < s.len(),
        0 <= j < s.len(),
        s[i].conversation_id == id,
        s[j].conversation_id == id,
    ensures
        i == j,
{
}

/// One step of a per-conversation forwarding task: a `Some`
/// item is mapped to its event and pushed onto the Event Bus in arrival
/// order; `None` means the underlying subscription ended unexpectedly, so
/// the task removes its own handle and emits `ConversationStreamClosed`
/// instead, and the returned task (its own) is to be cancelled. The task
/// never retries by itself: reattachment is a caller-initiated
/// `add_stream`.
pub fn forward_stream_item(
    streams: &mut StreamManager,
    bus: &mut EventBus,
    conversation_id: u128,
    item: Option<RawMessageEvent>,
) -> (cancel: Option<u64>)
    requires
        old(streams).wf(),
    ensures
        final(streams).wf(),
        match item {
            Some(raw) => *final(streams) == *old(streams) && cancel is None && final(bus)@ == old(
                bus)@.push(WarpEvent::Message(tag_raw_event(raw, conversation_id))),
            None => !has_handle(final(streams)@, conversation_id) && final(bus)@ == old(
                bus)@.push(WarpEvent::ConversationStreamClosed { conversation_id }),
        },
{
    match item {
        Some(raw) => {
            let ev = match raw {
                RawMessageEvent::Received => MessageEvent::Received { conversation_id },
                RawMessageEvent::Sent => MessageEvent::Sent { conversation_id },
            };
            bus.send(WarpEvent::Message(ev));
            None
        }
        None => {
            let cancel = streams.remove_stream(conversation_id);
            bus.send(WarpEvent::ConversationStreamClosed { conversation_id });
            cancel
        }
    }
}

/// The event a raw stream item of `conversation_id` is forwarded as.
pub open spec fn tag_raw_event(raw: RawMessageEvent, conversation_id: u128) -> MessageEvent {
    match raw {
        RawMessageEvent::Received => MessageEvent::Received { conversation_id },
        RawMessageEvent::Sent => MessageEvent::Sent { conversation_id },
    }
}

} // verus!
