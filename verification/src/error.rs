//! Error taxonomy of the coordination layer.

use vstd::prelude::*;

verus! {

/// Reasons a backend capability call can fail, as the backend reports them.
#[derive(Clone, Copy, PartialEq, Eq, Structural, Debug)]
pub enum BackendReason {
    /// The conversation id is unknown to the backend.
    ConversationNotFound,
    /// A conversation with the same recipients already exists.
    ConversationExist,
    /// A friend request to this recipient already exists.
    FriendRequestExist,
    /// The caller is not a participant of the conversation.
    NotAParticipant,
    /// Authentication was rejected (wrong passphrase).
    AuthFailed,
    /// Any other backend-reported failure.
    Other,
}

/// Errors surfaced by the coordination layer itself.
#[derive(Clone, Copy, PartialEq, Eq, Structural, Debug)]
pub enum ErrorKind {
    /// The peer half of a response slot or bus was dropped: the backend is
    /// unavailable, and the in-flight action fails.
    ChannelClosed,
    /// A backend capability call failed; carries the backend's own reason.
    BackendError(BackendReason),
    /// A per-conversation subscription was rejected by the backend.
    StreamOpenError,
    /// The foreground supplied a malformed identifier.
    ParseError,
}

} // verus!
