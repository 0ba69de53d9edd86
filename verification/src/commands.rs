//! Typed commands, their backend outcomes, and the replies the
//! dispatcher produces.
//!
//! A command is a one-shot intent sent from the foreground to the
//! dispatcher; each carries (in the Command Bus) a response slot that is
//! resolved with exactly one `Reply`. The backend capability calls a
//! command triggers are performed by the host runtime; their results come
//! back as the outcome types below, and the dispatcher's verified
//! decision functions turn them into replies.

use vstd::prelude::*;
use crate::chats::{Chat, ChatAdapter};
use crate::error::{BackendReason, ErrorKind};
use crate::events::RawMessageEvent;
use crate::identity::{Friends, Identity};
use crate::storage::Storage;

verus! {

/// Whether a reaction is being added or removed.
#[derive(Clone, Copy, PartialEq, Eq, Structural, Debug)]
pub enum ReactionState {
    AddReaction,
    RemoveReaction,
}

/// Identity and friendship commands.
#[derive(Debug)]
pub enum MultiPassCmd {
    CreateIdentity { username: String, passphrase: String },
    TryLogIn { passphrase: String },
    RequestFriend { did: String },
    InitializeFriends,
    GetOwnDid,
}

/// Conversation and messaging commands.
#[derive(Debug)]
pub enum RayGunCmd {
    InitializeConversations,
    CreateConversation { recipient: String },
    SendMessage { conv_id: u128, msg: Vec<String>, attachments: Vec<String> },
    EditMessage { conv_id: u128, msg_id: u128, msg: Vec<String> },
    DownloadAttachment { conv_id: u128, msg_id: u128, file_name: String, directory: String },
    DeleteMessage { conv_id: u128, msg_id: u128 },
    Reply { conv_id: u128, reply_to: u128, msg: Vec<String> },
    RemoveDirectConvs { recipient: String },
    React { conversation_id: u128, message_id: u128, reaction_state: ReactionState, emoji: String },
    SendEvent { conv_id: u128, event: RawMessageEvent },
}

/// Storage commands.
#[derive(Debug)]
pub enum ConstellationCmd {
    GetItemsFromCurrentDirectory,
}

/// Everything the foreground can ask of the backend.
#[derive(Debug)]
pub enum WarpCmd {
    MultiPass(MultiPassCmd),
    RayGun(RayGunCmd),
    Constellation(ConstellationCmd),
}

/// The initial conversation listing, adapted for the snapshot.
#[derive(Clone, Debug)]
pub struct ConversationsPayload {
    pub chats: Vec<Chat>,
    pub identities: Vec<Identity>,
}

/// The friends record retrieved at login.
#[derive(Clone, Debug)]
pub struct FriendsPayload {
    pub friends: Friends,
}

/// The one value resolved into a command's response slot.
#[derive(Debug)]
pub enum Reply {
    /// For commands whose success carries no data.
    Unit(Result<(), ErrorKind>),
    /// For identity creation and login.
    Identity(Result<Identity, ErrorKind>),
    /// For `GetOwnDid`.
    Did(Result<String, ErrorKind>),
    /// For `CreateConversation`.
    Chat(Result<ChatAdapter, ErrorKind>),
    /// For `InitializeConversations`.
    Conversations(Result<ConversationsPayload, ErrorKind>),
    /// For `InitializeFriends`.
    FriendsList(Result<FriendsPayload, ErrorKind>),
    /// For `GetItemsFromCurrentDirectory`.
    Listing(Result<Storage, ErrorKind>),
}

/// One conversation of the initial listing: its adapted form if the
/// per-conversation adaptation succeeded, and whether the backend
/// accepted opening its live stream.
#[derive(Debug)]
pub struct InitConvItem {
    pub chat: Option<ChatAdapter>,
    pub stream_accepted: bool,
}

/// What came back from the backend for `CreateConversation`: the
/// existing-conversation failure carries the conversation itself and is
/// not an error to this layer.
#[derive(Debug)]
pub enum CreateConvOutcome {
    /// The conversation was created; the stream flag says whether its
    /// live stream was accepted.
    Created { adapter: ChatAdapter, stream_accepted: bool },
    /// A conversation with these recipients already existed.
    Existing { adapter: ChatAdapter, stream_accepted: bool },
    /// Any other backend failure.
    Failed(BackendReason),
}

/// The raw friends listing as the backend hands it over; lists may
/// repeat a did, the dispatcher deduplicates them.
#[derive(Debug)]
pub struct FriendsLists {
    pub all: Vec<Identity>,
    pub blocked: Vec<Identity>,
    pub incoming_requests: Vec<Identity>,
    pub outgoing_requests: Vec<Identity>,
}

/// Backend outcomes for identity and friendship commands.
#[derive(Debug)]
pub enum MultiPassOutcome {
    /// For `CreateIdentity` and `TryLogIn`.
    Identity(Result<Identity, BackendReason>),
    /// For `RequestFriend`.
    Unit(Result<(), BackendReason>),
    /// For `InitializeFriends`.
    Friends(Result<FriendsLists, BackendReason>),
    /// For `GetOwnDid`.
    Did(Result<String, BackendReason>),
}

/// The outcomes of the deletions performed for `RemoveDirectConvs`, in
/// plan order; the batch stops at the first failure.
#[derive(Debug)]
pub struct RemoveDirectOutcome {
    pub list: Result<Vec<Chat>, BackendReason>,
    pub deletes: Vec<Result<(), BackendReason>>,
}

/// Backend outcomes for conversation and messaging commands.
#[derive(Debug)]
pub enum RayGunOutcome {
    /// For `InitializeConversations`.
    Convs(Result<Vec<InitConvItem>, BackendReason>),
    /// For `CreateConversation`.
    Create(CreateConvOutcome),
    /// For the single-call messaging commands.
    Unit(Result<(), BackendReason>),
    /// For `RemoveDirectConvs`.
    RemoveDirect(RemoveDirectOutcome),
}

/// Backend outcomes for storage commands.
#[derive(Debug)]
pub enum ConstellationOutcome {
    /// For `GetItemsFromCurrentDirectory`.
    Listing(Result<Vec<String>, BackendReason>),
}

/// A backend outcome, by command family.
#[derive(Debug)]
pub enum BackendOutcome {
    MultiPass(MultiPassOutcome),
    RayGun(RayGunOutcome),
    Constellation(ConstellationOutcome),
}

/// Whether `outcome` is of the shape the backend produces for `cmd`.
/// The dispatcher only accepts matching pairs.
pub open spec fn outcome_matches(cmd: WarpCmd, outcome: BackendOutcome) -> bool {
    match (cmd, outcome) {
        (WarpCmd::MultiPass(m), BackendOutcome::MultiPass(o)) => match (m, o) {
            (MultiPassCmd::CreateIdentity { .. }, MultiPassOutcome::Identity(_)) => true,
            (MultiPassCmd::TryLogIn { .. }, MultiPassOutcome::Identity(_)) => true,
            (MultiPassCmd::RequestFriend { .. }, MultiPassOutcome::Unit(_)) => true,
            (MultiPassCmd::InitializeFriends, MultiPassOutcome::Friends(_)) => true,
            (MultiPassCmd::GetOwnDid, MultiPassOutcome::Did(_)) => true,
            _ => false,
        },
        (WarpCmd::RayGun(r), BackendOutcome::RayGun(o)) => match (r, o) {
            (RayGunCmd::InitializeConversations, RayGunOutcome::Convs(_)) => true,
            (RayGunCmd::CreateConversation { .. }, RayGunOutcome::Create(_)) => true,
            (RayGunCmd::SendMessage { .. }, RayGunOutcome::Unit(_)) => true,
            (RayGunCmd::EditMessage { .. }, RayGunOutcome::Unit(_)) => true,
            (RayGunCmd::DownloadAttachment { .. }, RayGunOutcome::Unit(_)) => true,
            (RayGunCmd::DeleteMessage { .. }, RayGunOutcome::Unit(_)) => true,
            (RayGunCmd::Reply { .. }, RayGunOutcome::Unit(_)) => true,
            (RayGunCmd::RemoveDirectConvs { .. }, RayGunOutcome::RemoveDirect(_)) => true,
            (RayGunCmd::React { .. }, RayGunOutcome::Unit(_)) => true,
            (RayGunCmd::SendEvent { .. }, RayGunOutcome::Unit(_)) => true,
            _ => false,
        },
        (WarpCmd::Constellation(c), BackendOutcome::Constellation(o)) => match (c, o) {
            (
                ConstellationCmd::GetItemsFromCurrentDirectory,
                ConstellationOutcome::Listing(_),
            ) => true,
        },
        _ => false,
    }
}

} // verus!
