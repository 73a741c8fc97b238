//! The error taxonomy of the action subsystem.
//!
//! Anything that happens before a message leaves the process (identifier
//! generation, encoding, the size check) is surfaced synchronously to the
//! immediate caller.  Anything that happens after the message is handed to
//! the transport is not surfaced to the original caller, who has already
//! returned.

use vstd::prelude::*;

verus! {

/// An error of the action subsystem.
#[derive(Debug, Clone, PartialEq, Eq)]
pub enum ActorError {
    /// The host-side correlation identifier source failed.
    IdGeneration(String),
    /// A payload could not be encoded for message exchange.
    Serialization(String),
    /// A direct-return transport call failed.
    Transport(String),
    /// An encoded intercom body exceeded the transport's size limit.
    OversizedPayload,
    /// `request_intercom` was handed a message whose reply address was
    /// already filled in; that field is reserved for the response socket.
    ReplyToNotEmpty,
    /// A registered reply callback reported a failure of its own.
    Callback(String),
}

impl ActorError {
    /// A human-readable description of the error.
    pub fn describe(&self) -> (r: String)
        ensures
            (*self) matches ActorError::IdGeneration(m) ==> r@
                == "correlation id generation failed: "@ + m@,
            (*self) matches ActorError::Serialization(m) ==> r@ == "serialization failed: "@
                + m@,
            (*self) matches ActorError::Transport(m) ==> r@ == "transport call failed: "@ + m@,
            (*self) is OversizedPayload ==> r@ == "serialized broker message over than 128K"@,
            (*self) is ReplyToNotEmpty ==> r@
                == "When calling request_intercom, always leave reply_to empty, because it is used for response socket"@,
            (*self) matches ActorError::Callback(m) ==> r@ == "reply callback failed: "@ + m@,
    {
        match self {
            ActorError::IdGeneration(m) => {
                let mut s = String::from_str("correlation id generation failed: ");
                s.append(m.as_str());
                s
            },
            ActorError::Serialization(m) => {
                let mut s = String::from_str("serialization failed: ");
                s.append(m.as_str());
                s
            },
            ActorError::Transport(m) => {
                let mut s = String::from_str("transport call failed: ");
                s.append(m.as_str());
                s
            },
            ActorError::OversizedPayload => {
                String::from_str("serialized broker message over than 128K")
            },
            ActorError::ReplyToNotEmpty => {
                String::from_str(
                    "When calling request_intercom, always leave reply_to empty, because it is used for response socket",
                )
            },
            ActorError::Callback(m) => {
                let mut s = String::from_str("reply callback failed: ");
                s.append(m.as_str());
                s
            },
        }
    }
}

} // verus!
