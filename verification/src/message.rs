//! The broker message envelope.

use vstd::prelude::*;

verus! {

/// The `{subject, reply_to, body}` envelope used for all inter-actor and
/// actor-host asynchronous communication.
///
/// `subject` routes the message; `reply_to` is the address the recipient
/// should use to address its own reply (empty when no reply is expected);
/// `body` is the opaque application payload.
#[derive(Debug, Clone)]
pub struct BrokerMessage {
    /// The message subject, a hierarchical string segmented by `.`.
    pub subject: String,
    /// The address the recipient should reply to, or the empty string.
    pub reply_to: String,
    /// The raw bytes of the application payload.
    pub body: Vec<u8>,
}

} // verus!
