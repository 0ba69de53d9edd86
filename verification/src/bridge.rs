//! The Sync/Async Bridge's decisions.
//!
//! The bridge turns one foreground action into one or more commands,
//! blocks the calling context on the response slots, and combines the
//! replies. The blocking itself is the host runtime's; the decisions —
//! which commands to build, whether follow-up round trips are issued,
//! how a composite propagates its first failure — are verified here.

use vstd::prelude::*;
use crate::chats::ChatAdapter;
use crate::commands::{RayGunCmd, Reply};
use crate::error::ErrorKind;
use crate::identity::Identity;
use crate::ids::{parse_conv_id, uuid_of};

verus! {

/// Login is a multi-slot composite: authentication first; the friends,
/// conversations and storage round trips are issued exactly when
/// authentication succeeded — on failure none of the three is issued.
pub fn login_followups_needed(auth: &Result<Identity, ErrorKind>) -> (r: bool)
    ensures
        r == auth is Ok,
{
    auth.is_ok()
}

/// Chaining decision of the initial-message composite: the send round
/// trip goes to the conversation the create round trip produced; if
/// creation failed, the send is never attempted and the composite
/// reports the creation failure.
pub fn initial_message_next(create: &Result<ChatAdapter, ErrorKind>) -> (r: Result<
    u128,
    ErrorKind,
>)
    ensures
        match create {
            Ok(adapter) => r == Ok::<u128, ErrorKind>(adapter.inner.id),
            Err(e) => r == Err::<u128, ErrorKind>(*e),
        },
{
    match create {
        Ok(adapter) => Ok(adapter.inner.id),
        Err(e) => Err(*e),
    }
}

/// Bootstrap retry decision for the initial conversation listing: only a
/// transient channel failure (the dispatcher was not ready and abandoned
/// the slot) is retried, after a short backoff; any reply — success or
/// backend failure — ends the loop.
pub fn initialize_should_retry(r: &Result<Reply, ErrorKind>) -> (retry: bool)
    ensures
        retry == (r == Err::<Reply, ErrorKind>(ErrorKind::ChannelClosed)),
{
    match r {
        Err(ErrorKind::ChannelClosed) => true,
        _ => false,
    }
}

/// Builds the send-message command from the foreground's conversation-id
/// string and the message body as its ordered list of lines. A malformed
/// id is rejected with `ParseError` before anything is submitted.
pub fn make_send_message_cmd(conv_id: &str, msg: Vec<String>, attachments: Vec<String>) -> (r:
    Result<RayGunCmd, ErrorKind>)
    ensures
        match r {
            Ok(cmd) => uuid_of(conv_id@) is Some && cmd == (RayGunCmd::SendMessage {
                conv_id: uuid_of(conv_id@)->0,
                msg,
                attachments,
            }),
            Err(e) => e == ErrorKind::ParseError && uuid_of(conv_id@) is None,
        },
{
    match parse_conv_id(conv_id) {
        Ok(id) => Ok(RayGunCmd::SendMessage { conv_id: id, msg, attachments }),
        Err(e) => Err(e),
    }
}

} // verus!
