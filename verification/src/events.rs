//! Backend-originated events and the Event Bus.
//!
//! Events are unsolicited facts pushed by the backend. The bus is a
//! first-in first-out queue with a single consumer: what the consumer
//! observes is exactly the sequence produced, in production order.

use vstd::prelude::*;
use crate::chats::Chat;
use crate::identity::Identity;

verus! {

/// Identity and friendship events.
#[derive(Clone, Debug)]
pub enum MultiPassEvent {
    FriendRequestReceived(Identity),
    FriendRequestSent(Identity),
    FriendAdded(Identity),
    FriendRemoved(Identity),
    FriendRequestCancelled(Identity),
    FriendOnline(Identity),
    FriendOffline(Identity),
    Blocked(Identity),
    Unblocked(Identity),
    IdentityUpdate(Identity),
}

/// An item of one conversation's live stream, before the forwarding
/// task attaches the conversation id.
#[derive(Clone, Copy, Debug)]
pub enum RawMessageEvent {
    Received,
    Sent,
}

/// Message events, tagged with their conversation.
#[derive(Clone, Copy, Debug)]
pub enum MessageEvent {
    Received { conversation_id: u128 },
    Sent { conversation_id: u128 },
}

/// Conversation lifecycle events.
#[derive(Clone, Debug)]
pub enum RayGunEvent {
    ConversationCreated(Chat),
    ConversationUpdated(Chat),
    ConversationDeleted(u128),
}

/// Everything the backend can push at the foreground.
#[derive(Clone, Debug)]
pub enum WarpEvent {
    MultiPass(MultiPassEvent),
    RayGun(RayGunEvent),
    Message(MessageEvent),
    /// A conversation's live stream ended unexpectedly; the conversation
    /// is degraded until a new stream is attached.
    ConversationStreamClosed { conversation_id: u128 },
}

impl WarpEvent {
    /// The conversation an event belongs to, where it belongs to one.
    /// Ordering is only promised among events of one conversation.
    pub open spec fn conversation(self) -> Option<u128> {
        match self {
            WarpEvent::Message(MessageEvent::Received { conversation_id }) => Some(
                conversation_id,
            ),
            WarpEvent::Message(MessageEvent::Sent { conversation_id }) => Some(conversation_id),
            WarpEvent::RayGun(RayGunEvent::ConversationCreated(c)) => Some(c.id),
            WarpEvent::RayGun(RayGunEvent::ConversationUpdated(c)) => Some(c.id),
            WarpEvent::RayGun(RayGunEvent::ConversationDeleted(id)) => Some(id),
            WarpEvent::ConversationStreamClosed { conversation_id } => Some(conversation_id),
            WarpEvent::MultiPass(_) => None,
        }
    }
}

/// The Event Bus: an unbounded first-in first-out queue from the backend
/// side to the single foreground consumer. Producers append, the consumer
/// takes from the front; no event is reordered, duplicated or dropped.
#[derive(Debug)]
pub struct EventBus {
    events: Vec<WarpEvent>,
}

impl View for EventBus {
    type V = Seq<WarpEvent>;

    closed spec fn view(&self) -> Seq<WarpEvent> {
        self.events@
    }
}

impl EventBus {
    /// An empty bus.
    pub fn new() -> (r: EventBus)
        ensures
            r@ =~= Seq::<WarpEvent>::empty(),
    {
        EventBus { events: Vec::new() }
    }

    /// Producer side: appends one event. Never blocks, never fails, never
    /// reorders what was already queued.
    pub fn send(&mut self, e: WarpEvent)
        ensures
            final(self)@ == old(self)@.push(e),
    {
        self.events.push(e);
    }

    /// Consumer side: takes the oldest queued event, if any.
    pub fn recv(&mut self) -> (r: Option<WarpEvent>)
        ensures
            match r {
                Some(e) => old(self)@.len() > 0 && e == old(self)@[0] && final(self)@ == old(
                    self)@.drop_first(),
                None => old(self)@.len() == 0 && final(self)@ == old(self)@,
            },
    {
        if self.events.len() == 0 {
            None
        } else {
            let e = self.events.remove(0);
            Some(e)
        }
    }

    /// Consumer side: drains the whole queue. The result is exactly the
    /// produced sequence, in production order; in particular the events
    /// of any single conversation keep their relative order.
    pub fn drain(&mut self) -> (r: Vec<WarpEvent>)
        ensures
            r@ == old(self)@,
            final(self)@ =~= Seq::<WarpEvent>::empty(),
    {
        let mut out: Vec<WarpEvent> = Vec::new();
        core::mem::swap(&mut self.events, &mut out);
        out
    }
}

/// Event ordering law: the bus is first-in first-out. After `k` receives
/// from a bus whose queue was `q`, the queue is `q.skip(k)`; the next
/// receive observes `q[k]` and leaves `q.skip(k + 1)`. So for two events
/// of one conversation produced at positions `i < j`, the consumer
/// observes the one at `i` strictly before the one at `j`.
pub proof fn lemma_event_fifo(q: Seq<WarpEvent>, k: int)
    requires
        0 <= k < q.len(),
    ensures
        q.skip(k)[0] == q[k],
        q.skip(k).drop_first() =~= q.skip(k + 1),
{
}

} // verus!
