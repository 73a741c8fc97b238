//! The message-exchange encoding of broker messages.
//!
//! The encoding itself is owned by the messaging capability's codec, an
//! outside collaborator; this module gives it a name and a trusted wrapper,
//! and proves nothing about the bytes beyond what that codec's source
//! shows: the encoding is a function of the message's three fields alone.

use vstd::prelude::*;

verus! {

/// The bytes that the message-exchange codec produces for a broker message
/// with the given subject, reply address and body.
pub uninterp spec fn broker_message_bytes(
    subject: Seq<char>,
    reply_to: Seq<char>,
    body: Seq<u8>,
) -> Seq<u8>;

/// Relies on `wascc_codec::serialize` applied to a
/// `wascc_codec::messaging::BrokerMessage`: a deterministic encoding
/// (MessagePack with named fields) of the three fields, so the result is a
/// function of them alone.  For this flat struct, written into a growable
/// byte buffer, the encoder cannot fail: every error path of the
/// MessagePack writer is an I/O error of the underlying writer, a byte
/// vector's writer has none, and the field count is statically known — so
/// the call always succeeds.
#[verifier::external_body]
pub(crate) fn encode_broker_message(subject: &str, reply_to: &str, body: &[u8]) -> (r: Result<
    Vec<u8>,
    String,
>)
    ensures
        r is Ok,
        r matches Ok(bytes) ==> bytes@ == broker_message_bytes(subject@, reply_to@, body@),
{
    wascc_codec::serialize(wascc_codec::messaging::BrokerMessage {
        subject: subject.to_string(),
        reply_to: reply_to.to_string(),
        body: body.to_vec(),
    }).map_err(|e| e.to_string())
}

} // verus!
