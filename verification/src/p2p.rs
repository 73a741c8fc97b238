//! Structured replies to inbound peer-to-peer requests.
//!
//! A handler answers a forwarded peer-to-peer message with a reply carrying
//! the peer, the correlation id, the content, a numeric reply code and, for
//! failures, an error message.  The wire encoding of the reply belongs to
//! the host's message schema and stays outside this crate.

use vstd::prelude::*;

verus! {

/// The outcome a peer-to-peer reply reports.
#[derive(Debug, Clone, PartialEq, Eq)]
pub enum P2pReplyType {
    Success,
    Cancelled,
    Rejected,
    Error(String),
}

/// The numeric code a reply type carries on the wire.
pub open spec fn spec_reply_code(ty: P2pReplyType) -> int {
    match ty {
        P2pReplyType::Success => 0,
        P2pReplyType::Cancelled => 1,
        P2pReplyType::Rejected => 2,
        P2pReplyType::Error(_) => 3,
    }
}

/// A reply to a forwarded peer-to-peer message.
#[derive(Debug, Clone)]
pub struct P2pReplyMessage {
    /// The peer the reply addresses.
    pub peer_id: String,
    /// The correlation id of the request being answered.
    pub uuid: String,
    /// The reply content; empty for error replies.
    pub content: String,
    /// The numeric code of the reply type.
    pub reply_type: i32,
    /// The error message, present exactly on error replies.
    pub reply_error: Option<String>,
}

/// The numeric code of `ty`.
fn reply_code(ty: &P2pReplyType) -> (r: i32)
    ensures
        r == spec_reply_code(*ty),
{
    match ty {
        P2pReplyType::Success => 0,
        P2pReplyType::Cancelled => 1,
        P2pReplyType::Rejected => 2,
        P2pReplyType::Error(_) => 3,
    }
}

/// Stamps `ty` onto `msg`: the numeric code always, and the error message
/// where `ty` carries one.
fn set_reply_message_type(msg: &mut P2pReplyMessage, ty: P2pReplyType)
    ensures
        final(msg).peer_id == old(msg).peer_id,
        final(msg).uuid == old(msg).uuid,
        final(msg).content == old(msg).content,
        final(msg).reply_type == spec_reply_code(ty),
        ty matches P2pReplyType::Error(m) ==> final(msg).reply_error == Some(m),
        !(ty is Error) ==> final(msg).reply_error == old(msg).reply_error,
{
    match ty {
        P2pReplyType::Success => {
            msg.reply_type = 0;
        },
        P2pReplyType::Cancelled => {
            msg.reply_type = 1;
        },
        P2pReplyType::Rejected => {
            msg.reply_type = 2;
        },
        P2pReplyType::Error(message) => {
            msg.reply_type = 3;
            msg.reply_error = Some(message);
        },
    }
}

/// The reply for `ty` with the given peer, correlation id and content.
pub fn response_ipfs_p2p(peer_id: &str, uuid: &str, content: &str, ty: P2pReplyType) -> (r:
    P2pReplyMessage)
    ensures
        r.peer_id@ == peer_id@,
        r.uuid@ == uuid@,
        r.content@ == content@,
        r.reply_type == spec_reply_code(ty),
        ty matches P2pReplyType::Error(m) ==> r.reply_error == Some(m),
        !(ty is Error) ==> r.reply_error is None,
{
    let mut msg = P2pReplyMessage {
        peer_id: peer_id.to_owned(),
        uuid: uuid.to_owned(),
        content: content.to_owned(),
        reply_type: reply_code(&P2pReplyType::Success),
        reply_error: None,
    };
    set_reply_message_type(&mut msg, ty);
    msg
}

/// The error reply for the given peer and correlation id: empty content,
/// the error code, and `error` as the message.
pub fn response_ipfs_p2p_with_error(peer_id: &str, uuid: &str, error: &str) -> (r:
    P2pReplyMessage)
    ensures
        r.peer_id@ == peer_id@,
        r.uuid@ == uuid@,
        r.content@.len() == 0,
        r.reply_error matches Some(m) && m@ == error@
            && r.reply_type == spec_reply_code(P2pReplyType::Error(m)),
{
    let owned = error.to_owned();
    P2pReplyMessage {
        peer_id: peer_id.to_owned(),
        uuid: uuid.to_owned(),
        content: String::new(),
        reply_type: reply_code(&P2pReplyType::Error(owned.clone())),
        reply_error: Some(owned),
    }
}

/// Builds the reply for `ty`.  Reporting the outcome to a log is the
/// caller's affair.
pub fn log_and_response(peer_id: &str, uuid: &str, content: &str, ty: P2pReplyType) -> (r:
    P2pReplyMessage)
    ensures
        r.peer_id@ == peer_id@,
        r.uuid@ == uuid@,
        r.content@ == content@,
        r.reply_type == spec_reply_code(ty),
        ty matches P2pReplyType::Error(m) ==> r.reply_error == Some(m),
        !(ty is Error) ==> r.reply_error is None,
{
    response_ipfs_p2p(peer_id, uuid, content, ty)
}

/// The error reply for `error`.
pub fn log_and_response_with_error(peer_id: &str, uuid: &str, error: &str) -> (r:
    P2pReplyMessage)
    ensures
        r.peer_id@ == peer_id@,
        r.uuid@ == uuid@,
        r.content@.len() == 0,
        r.reply_error matches Some(m) && m@ == error@
            && r.reply_type == spec_reply_code(P2pReplyType::Error(m)),
{
    response_ipfs_p2p_with_error(peer_id, uuid, error)
}

} // verus!
