//! Conversation identifiers.
//!
//! The backend keys conversations by a 128-bit id that the foreground
//! hands over in its canonical textual form. The library works on the
//! plain 128-bit value; only the textual decoding is delegated.

use vstd::prelude::*;
use crate::error::ErrorKind;

verus! {

/// The 128-bit id encoded by a conversation-id string, if the string is
/// well-formed. The decoding depends on the characters alone.
pub uninterp spec fn uuid_of(s: Seq<char>) -> Option<u128>;

/// Relies on `uuid::Uuid::parse_str` and `uuid::Uuid::as_u128`: decoding
/// a textual UUID is a deterministic function of the input characters.
#[verifier::external_body]
fn parse_uuid_str(s: &str) -> (r: Option<u128>)
    ensures
        r == uuid_of(s@),
{
    uuid::Uuid::parse_str(s).ok().map(|u| u.as_u128())
}

/// Decodes a conversation-id string supplied by the foreground.
/// A malformed id is rejected with `ParseError`; this is the only error.
pub fn parse_conv_id(s: &str) -> (r: Result<u128, ErrorKind>)
    ensures
        match r {
            Ok(id) => uuid_of(s@) == Some(id),
            Err(e) => e == ErrorKind::ParseError && uuid_of(s@) is None,
        },
{
    match parse_uuid_str(s) {
        Some(id) => Ok(id),
        None => Err(ErrorKind::ParseError),
    }
}

} // verus!
