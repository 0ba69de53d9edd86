//! The State Reducer: the single application-state snapshot and the
//! named actions that fold backend replies and events into it.
//!
//! Exactly one mutation is in flight at a time: the snapshot lives in a
//! `StateState` cell that hands out the whole snapshot only under an
//! exclusive borrow, so every observed snapshot is the complete result of
//! a whole action — never a mixture of two partially applied ones — and
//! a reader never observes a missing snapshot.

use vstd::prelude::*;
use crate::chats::{Chats, convs_unique, has_conv, remove_chat, upsert_chat, conv_upserted, conv_removed, find_conv, Chat};
use crate::commands::{ConversationsPayload, FriendsPayload};
use crate::error::ErrorKind;
use crate::events::{MessageEvent, MultiPassEvent, RayGunEvent, WarpEvent};
use crate::identity::{
    Friends, Identity, remove_identity, removed_did, set_identity_status, status_set,
    update_identity, updated_did, upsert_identity, upserted, IdentityStatus,
};
use crate::storage::Storage;

verus! {

/// The application-state snapshot exposed to the foreground.
#[derive(Debug)]
pub struct State {
    /// Whether an identity exists on this machine.
    pub identity_exists: bool,
    /// Whether the user is logged in.
    pub logged_in: bool,
    /// A foreground counter with no backend meaning.
    pub counter: i32,
    pub friends: Friends,
    pub chats: Chats,
    pub storage: Storage,
}

/// The outcome of the login composite: on authentication failure the
/// friends, conversations and storage round trips are never issued, so a
/// failed login carries no such data by construction.
#[derive(Debug)]
pub enum LoginOutcome {
    Failed(ErrorKind),
    Succeeded { friends: FriendsPayload, conversations: ConversationsPayload, storage: Storage },
}

/// The closed set of foreground actions: each carries its inputs and
/// what the backend round trips it triggered came back with, so an
/// unhandled action is a compile-time error.
#[derive(Debug)]
pub enum Action {
    Start,
    /// `file_exists` is whether the identity file is present on disk.
    CheckIdentity { file_exists: bool },
    IncrementCounter { step: i32 },
    CreateIdentity { outcome: Result<Identity, ErrorKind> },
    Login { outcome: LoginOutcome },
    DeleteIdentity,
    SendFriendRequest { outcome: Result<(), ErrorKind> },
    SendInitialMessage { outcome: Result<(), ErrorKind> },
    SendMessage { outcome: Result<(), ErrorKind> },
    GetOwnDid { outcome: Result<String, ErrorKind> },
}

/// What an action needs of the snapshot and of its own payload: the
/// counter must not overflow, and login payloads must be well-formed (as
/// the dispatcher's replies are).
pub open spec fn apply_req(s: State, a: Action) -> bool {
    match a {
        Action::IncrementCounter { step } => i32::MIN <= s.counter + step <= i32::MAX,
        Action::Login { outcome } => match outcome {
            LoginOutcome::Succeeded { friends, conversations, storage } => friends.friends.wf()
                && convs_unique(conversations.chats@),
            LoginOutcome::Failed(_) => true,
        },
        _ => true,
    }
}

/// The snapshot after an action: a function of the prior snapshot and
/// the action alone.
pub open spec fn spec_apply(s: State, a: Action) -> State {
    match a {
        Action::Start => s,
        Action::CheckIdentity { file_exists } => State {
            identity_exists: file_exists,
            logged_in: s.logged_in,
            counter: s.counter,
            friends: s.friends,
            chats: s.chats,
            storage: s.storage,
        },
        Action::IncrementCounter { step } => State {
            identity_exists: s.identity_exists,
            logged_in: s.logged_in,
            counter: (s.counter + step) as i32,
            friends: s.friends,
            chats: s.chats,
            storage: s.storage,
        },
        Action::CreateIdentity { outcome } => match outcome {
            Ok(_) => State {
                identity_exists: true,
                logged_in: true,
                counter: s.counter,
                friends: s.friends,
                chats: s.chats,
                storage: s.storage,
            },
            Err(_) => s,
        },
        Action::Login { outcome } => match outcome {
            LoginOutcome::Failed(_) => s,
            LoginOutcome::Succeeded { friends, conversations, storage } => State {
                identity_exists: s.identity_exists,
                logged_in: true,
                counter: s.counter,
                friends: friends.friends,
                chats: Chats { initialized: true, all: conversations.chats },
                storage,
            },
        },
        Action::DeleteIdentity => s,
        Action::SendFriendRequest { .. } => s,
        Action::SendInitialMessage { .. } => s,
        Action::SendMessage { .. } => s,
        Action::GetOwnDid { .. } => s,
    }
}

/// Whether `s` is the pristine snapshot: no identity, not logged in,
/// nothing retrieved.
pub open spec fn is_initial(s: State) -> bool {
    !s.identity_exists && !s.logged_in && s.counter == 0 && !s.friends.initialized
        && s.friends.all@.len() == 0 && s.friends.blocked@.len() == 0
        && s.friends.incoming_requests@.len() == 0 && s.friends.outgoing_requests@.len() == 0
        && !s.chats.initialized && s.chats.all@.len() == 0 && !s.storage.initialized
        && s.storage.items@.len() == 0
}

impl State {
    /// The snapshot's internal consistency: friends and conversations
    /// are keyed uniquely.
    pub open spec fn wf(self) -> bool {
        self.friends.wf() && self.chats.wf()
    }

    /// The pristine snapshot.
    pub fn initial() -> (r: State)
        ensures
            r.wf(),
            is_initial(r),
    {
        State {
            identity_exists: false,
            logged_in: false,
            counter: 0,
            friends: Friends::empty(),
            chats: Chats::empty(),
            storage: Storage::empty(),
        }
    }

    /// Applies one action: the new snapshot is exactly
    /// `spec_apply(self, action)` — deleting the identity resets to the
    /// pristine snapshot instead (the surrounding process removes the
    /// on-disk identity and exits).
    pub fn apply(self, action: Action) -> (r: State)
        requires
            apply_req(self, action),
            self.wf(),
        ensures
            r.wf(),
            action is DeleteIdentity ==> is_initial(r),
            !(action is DeleteIdentity) ==> r == spec_apply(self, action),
    {
        match action {
            Action::Start => self,
            Action::CheckIdentity { file_exists } => State { identity_exists: file_exists, ..self },
            Action::IncrementCounter { step } => State { counter: self.counter + step, ..self },
            Action::CreateIdentity { outcome } => match outcome {
                Ok(_) => State { identity_exists: true, logged_in: true, ..self },
                Err(_) => self,
            },
            Action::Login { outcome } => match outcome {
                LoginOutcome::Failed(_) => self,
                LoginOutcome::Succeeded { friends, conversations, storage } => State {
                    logged_in: true,
                    friends: friends.friends,
                    chats: Chats { initialized: true, all: conversations.chats },
                    storage,
                    ..self
                },
            },
            Action::DeleteIdentity => State::initial(),
            Action::SendFriendRequest { .. } => self,
            Action::SendInitialMessage { .. } => self,
            Action::SendMessage { .. } => self,
            Action::GetOwnDid { .. } => self,
        }
    }
}

/// Idempotence law for identity creation: when the backend reports any
/// failure — in particular that an identity already exists — the action
/// mutates nothing: the snapshot, the existing identity included, is
/// exactly what it was.
pub proof fn lemma_create_identity_failure_preserves_state(s: State, e: ErrorKind)
    ensures
        spec_apply(s, Action::CreateIdentity { outcome: Err(e) }) == s,
{
}

/// A failed login leaves the snapshot exactly as it was: in particular
/// `logged_in` stays false if it was false, and no friends,
/// conversations or storage data appears (a failed outcome carries none
/// by construction).
pub proof fn lemma_login_failure_preserves_state(s: State, e: ErrorKind)
    ensures
        spec_apply(s, Action::Login { outcome: LoginOutcome::Failed(e) }) == s,
{
}

/// How one identity or friendship event changes the friends record.
pub open spec fn multipass_folded(a: Friends, b: Friends, e: MultiPassEvent) -> bool {
    b.initialized == a.initialized && match e {
        MultiPassEvent::FriendRequestReceived(id) => upserted(
            a.incoming_requests@,
            b.incoming_requests@,
            id,
        ) && b.all@ == a.all@ && b.blocked@ == a.blocked@ && b.outgoing_requests@
            == a.outgoing_requests@,
        MultiPassEvent::FriendRequestSent(id) => upserted(
            a.outgoing_requests@,
            b.outgoing_requests@,
            id,
        ) && b.all@ == a.all@ && b.blocked@ == a.blocked@ && b.incoming_requests@
            == a.incoming_requests@,
        MultiPassEvent::FriendAdded(id) => removed_did(
            a.incoming_requests@,
            b.incoming_requests@,
            id.did_key@,
        ) && removed_did(a.outgoing_requests@, b.outgoing_requests@, id.did_key@) && upserted(
            a.all@,
            b.all@,
            id,
        ) && b.blocked@ == a.blocked@,
        MultiPassEvent::FriendRemoved(id) => removed_did(a.all@, b.all@, id.did_key@) && b.blocked@
            == a.blocked@ && b.incoming_requests@ == a.incoming_requests@ && b.outgoing_requests@
            == a.outgoing_requests@,
        MultiPassEvent::FriendRequestCancelled(id) => removed_did(
            a.incoming_requests@,
            b.incoming_requests@,
            id.did_key@,
        ) && removed_did(a.outgoing_requests@, b.outgoing_requests@, id.did_key@) && b.all@
            == a.all@ && b.blocked@ == a.blocked@,
        MultiPassEvent::FriendOnline(id) => status_set(
            a.all@,
            b.all@,
            id.did_key@,
            IdentityStatus::Online,
        ) && b.blocked@ == a.blocked@ && b.incoming_requests@ == a.incoming_requests@
            && b.outgoing_requests@ == a.outgoing_requests@,
        MultiPassEvent::FriendOffline(id) => status_set(
            a.all@,
            b.all@,
            id.did_key@,
            IdentityStatus::Offline,
        ) && b.blocked@ == a.blocked@ && b.incoming_requests@ == a.incoming_requests@
            && b.outgoing_requests@ == a.outgoing_requests@,
        MultiPassEvent::Blocked(id) => removed_did(a.all@, b.all@, id.did_key@) && upserted(
            a.blocked@,
            b.blocked@,
            id,
        ) && b.incoming_requests@ == a.incoming_requests@ && b.outgoing_requests@
            == a.outgoing_requests@,
        MultiPassEvent::Unblocked(id) => removed_did(a.blocked@, b.blocked@, id.did_key@) && b.all@
            == a.all@ && b.incoming_requests@ == a.incoming_requests@ && b.outgoing_requests@
            == a.outgoing_requests@,
        MultiPassEvent::IdentityUpdate(id) => updated_did(a.all@, b.all@, id) && b.blocked@
            == a.blocked@ && b.incoming_requests@ == a.incoming_requests@ && b.outgoing_requests@
            == a.outgoing_requests@,
    }
}

/// `c` with one more unread message (saturating at the counter's top).
pub open spec fn bumped(c: Chat) -> Chat {
    Chat {
        id: c.id,
        kind: c.kind,
        recipients: c.recipients,
        unreads: if c.unreads < u32::MAX {
            (c.unreads + 1) as u32
        } else {
            c.unreads
        },
        live: c.live,
    }
}

/// `c` marked degraded: its live stream closed unexpectedly.
pub open spec fn degraded(c: Chat) -> Chat {
    Chat { id: c.id, kind: c.kind, recipients: c.recipients, unreads: c.unreads, live: false }
}

/// How one backend event changes the snapshot. Every event variant is
/// folded; none is dropped silently.
pub open spec fn warp_folded(a: State, b: State, e: WarpEvent) -> bool {
    b.identity_exists == a.identity_exists && b.logged_in == a.logged_in && b.counter == a.counter
        && b.storage == a.storage && match e {
        WarpEvent::MultiPass(me) => multipass_folded(a.friends, b.friends, me) && b.chats
            == a.chats,
        WarpEvent::Message(MessageEvent::Received { conversation_id }) => b.friends == a.friends
            && b.chats.initialized == a.chats.initialized && conv_bumped(
            a.chats.all@,
            b.chats.all@,
            conversation_id,
        ),
        WarpEvent::Message(MessageEvent::Sent { .. }) => b.friends == a.friends && b.chats
            == a.chats,
        WarpEvent::RayGun(RayGunEvent::ConversationCreated(c)) => b.friends == a.friends
            && b.chats.initialized == a.chats.initialized && conv_upserted(
            a.chats.all@,
            b.chats.all@,
            c,
        ),
        WarpEvent::RayGun(RayGunEvent::ConversationUpdated(c)) => b.friends == a.friends
            && b.chats.initialized == a.chats.initialized && conv_upserted(
            a.chats.all@,
            b.chats.all@,
            c,
        ),
        WarpEvent::RayGun(RayGunEvent::ConversationDeleted(id)) => b.friends == a.friends
            && b.chats.initialized == a.chats.initialized && conv_removed(
            a.chats.all@,
            b.chats.all@,
            id,
        ),
        WarpEvent::ConversationStreamClosed { conversation_id } => b.friends == a.friends
            && b.chats.initialized == a.chats.initialized && conv_degraded(
            a.chats.all@,
            b.chats.all@,
            conversation_id,
        ),
    }
}

/// `b` is `a` with conversation `id`'s unread count bumped, or `a` if
/// `id` is unknown.
pub open spec fn conv_bumped(a: Seq<Chat>, b: Seq<Chat>, id: u128) -> bool {
    if has_conv(a, id) {
        exists|i: int| 0 <= i < a.len() && a[i].id == id && b == a.update(i, bumped(a[i]))
    } else {
        b == a
    }
}

/// `b` is `a` with conversation `id` marked degraded, or `a` if `id` is
/// unknown.
pub open spec fn conv_degraded(a: Seq<Chat>, b: Seq<Chat>, id: u128) -> bool {
    if has_conv(a, id) {
        exists|i: int| 0 <= i < a.len() && a[i].id == id && b == a.update(i, degraded(a[i]))
    } else {
        b == a
    }
}

/// Folds one identity or friendship event into the snapshot. The
/// original left most of these variants unapplied; here every variant
/// updates the friends record as the event states.
pub fn process_multipass_event(state: &mut State, event: MultiPassEvent)
    requires
        old(state).wf(),
    ensures
        final(state).wf(),
        multipass_folded(old(state).friends, final(state).friends, event),
        final(state).identity_exists == old(state).identity_exists,
        final(state).logged_in == old(state).logged_in,
        final(state).counter == old(state).counter,
        final(state).chats == old(state).chats,
        final(state).storage == old(state).storage,
{
    match event {
        MultiPassEvent::FriendRequestReceived(id) => {
            upsert_identity(&mut state.friends.incoming_requests, id);
        }
        MultiPassEvent::FriendRequestSent(id) => {
            upsert_identity(&mut state.friends.outgoing_requests, id);
        }
        MultiPassEvent::FriendAdded(id) => {
            remove_identity(&mut state.friends.incoming_requests, &id.did_key);
            remove_identity(&mut state.friends.outgoing_requests, &id.did_key);
            upsert_identity(&mut state.friends.all, id);
        }
        MultiPassEvent::FriendRemoved(id) => {
            remove_identity(&mut state.friends.all, &id.did_key);
        }
        MultiPassEvent::FriendRequestCancelled(id) => {
            remove_identity(&mut state.friends.incoming_requests, &id.did_key);
            remove_identity(&mut state.friends.outgoing_requests, &id.did_key);
        }
        MultiPassEvent::FriendOnline(id) => {
            set_identity_status(&mut state.friends.all, &id.did_key, IdentityStatus::Online);
        }
        MultiPassEvent::FriendOffline(id) => {
            set_identity_status(&mut state.friends.all, &id.did_key, IdentityStatus::Offline);
        }
        MultiPassEvent::Blocked(id) => {
            remove_identity(&mut state.friends.all, &id.did_key);
            upsert_identity(&mut state.friends.blocked, id);
        }
        MultiPassEvent::Unblocked(id) => {
            remove_identity(&mut state.friends.blocked, &id.did_key);
        }
        MultiPassEvent::IdentityUpdate(id) => {
            update_identity(&mut state.friends.all, id);
        }
    }
}

impl State {
    /// Folds one backend event into the snapshot.
    pub fn process_warp_event(&mut self, event: WarpEvent)
        requires
            old(self).wf(),
        ensures
            final(self).wf(),
            warp_folded(*old(self), *final(self), event),
    {
        match event {
            WarpEvent::MultiPass(me) => {
                process_multipass_event(self, me);
            }
            WarpEvent::Message(MessageEvent::Received { conversation_id }) => {
                match find_conv(&self.chats.all, conversation_id) {
                    Some(i) => {
                        let mut c = self.chats.all.remove(i);
                        let ghost c_g = c;
                        if c.unreads < u32::MAX {
                            c.unreads = c.unreads + 1;
                        }
                        self.chats.all.insert(i, c);
                        proof {
                            assert(self.chats.all@ =~= old(self).chats.all@.update(
                                i as int,
                                bumped(c_g),
                            ));
                        }
                    }
                    None => {}
                }
            }
            WarpEvent::Message(MessageEvent::Sent { .. }) => {}
            WarpEvent::RayGun(RayGunEvent::ConversationCreated(c)) => {
                upsert_chat(&mut self.chats.all, c);
            }
            WarpEvent::RayGun(RayGunEvent::ConversationUpdated(c)) => {
                upsert_chat(&mut self.chats.all, c);
            }
            WarpEvent::RayGun(RayGunEvent::ConversationDeleted(id)) => {
                remove_chat(&mut self.chats.all, id);
            }
            WarpEvent::ConversationStreamClosed { conversation_id } => {
                match find_conv(&self.chats.all, conversation_id) {
                    Some(i) => {
                        let mut c = self.chats.all.remove(i);
                        let ghost c_g = c;
                        c.live = false;
                        self.chats.all.insert(i, c);
                        proof {
                            assert(self.chats.all@ =~= old(self).chats.all@.update(
                                i as int,
                                degraded(c_g),
                            ));
                        }
                    }
                    None => {}
                }
            }
        }
    }
}

/// The terminal per-action hook: today the identity pass-through, kept
/// as the seam for chained or derived state transitions.
pub fn next_action(model: State) -> (r: State)
    ensures
        r == model,
{
    model
}

/// Runs the terminal hook after an action.
pub fn state(model: State) -> (r: State)
    ensures
        r == model,
{
    next_action(model)
}

/// The guarded exclusive-access cell that owns the snapshot. Mutation
/// demands the one `&mut` borrow, so applications of actions and event
/// folds are serialized and a reader never sees a partial or missing
/// snapshot.
#[derive(Debug)]
pub struct StateState {
    snapshot: State,
}

impl StateState {
    /// The snapshot the cell currently owns.
    pub closed spec fn spec_snapshot(self) -> State {
        self.snapshot
    }

    pub fn new(initial: State) -> (r: StateState)
        requires
            initial.wf(),
        ensures
            r.spec_snapshot() == initial,
            r.spec_snapshot().wf(),
    {
        StateState { snapshot: initial }
    }

    /// A read of the complete current snapshot.
    pub fn snapshot(&self) -> (r: &State)
        ensures
            *r == self.spec_snapshot(),
    {
        &self.snapshot
    }

    /// Applies one action under exclusive ownership: the cell afterwards
    /// holds exactly the snapshot the action produces from the snapshot
    /// before it — two concurrent applications cannot interleave.
    pub fn apply_action(&mut self, action: Action)
        requires
            old(self).spec_snapshot().wf(),
            apply_req(old(self).spec_snapshot(), action),
        ensures
            final(self).spec_snapshot().wf(),
            action is DeleteIdentity ==> is_initial(final(self).spec_snapshot()),
            !(action is DeleteIdentity) ==> final(self).spec_snapshot() == spec_apply(
                old(self).spec_snapshot(),
                action,
            ),
    {
        let mut taken = State::initial();
        core::mem::swap(&mut taken, &mut self.snapshot);
        let applied = taken.apply(action);
        let done = state(applied);
        self.snapshot = done;
    }

    /// Folds one backend event under the same exclusivity discipline as
    /// actions: the event-consumer loop and the action handlers can never
    /// interleave their mutations.
    pub fn fold_event(&mut self, event: WarpEvent)
        requires
            old(self).spec_snapshot().wf(),
        ensures
            final(self).spec_snapshot().wf(),
            warp_folded(old(self).spec_snapshot(), final(self).spec_snapshot(), event),
    {
        self.snapshot.process_warp_event(event);
    }
}

} // verus!
