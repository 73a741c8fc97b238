//! The asynchronous request/reply dispatch API.
//!
//! A host capability call is fire-and-forget: the actual reply arrives
//! later, as a separate inbound broker message.  A caller therefore
//! registers a one-shot callback under a freshly generated correlation id,
//! publishes its request with the id embedded in the reply address, and
//! returns.  When a reply is dispatched, the callback is removed from the
//! registry and invoked — exactly once, because removal hands out the only
//! copy.
//!
//! The registry is an explicit component of the [`Dispatcher`] rather than
//! process-global state, and the callback is invoked only after the
//! registry operation has completed, so a callback may itself issue new
//! requests through the dispatcher it is handed without deadlocking on the
//! registry.
//!
//! Beside the registry, the dispatcher keeps a ghost record of every
//! payload it hands the transport ([`Dispatcher::sent`]) and the host
//! scheduler ([`Dispatcher::delayed`]), so each contract states exactly
//! what left for the host — in particular that the registered correlation
//! id is the one embedded in the published reply address, and that a
//! rejected message was never handed over at all.

use vstd::prelude::*;
use crate::address;
use crate::codec;
use crate::codec::broker_message_bytes;
use crate::error::ActorError;
use crate::message::BrokerMessage;
use crate::string_map::StringMap;

verus! {

/// The size limit, in bytes, that the intercom transport places on an
/// encoded message body; larger bodies are rejected locally before
/// transmission.
pub const MAX_INTERCOM_BODY_BYTES: usize = 131072;

/// The operation name under which an intercom message is handed to the
/// host.
pub const OP_INTERCOM_MESSAGE: &'static str = "IntercomMessage";

/// The operation name under which a delayed publication is handed to the
/// host scheduler.
pub const OP_DELAY_PUBLISH: &'static str = "DelayPublish";

/// The reply address an intercom request carries: `"reply.<actor>.<id>"`.
pub open spec fn spec_intercom_reply_address(my_actor: Seq<char>, id: Seq<char>) -> Seq<char> {
    address::spec_with_segment(address::spec_with_segment("reply"@, my_actor), id)
}

/// The encoded inner message of an intercom request: the caller's message
/// with the reply address for `id` filled in.
pub open spec fn spec_request_inner_bytes(
    subject: Seq<char>,
    my_actor: Seq<char>,
    id: Seq<char>,
    body: Seq<u8>,
) -> Seq<u8> {
    broker_message_bytes(subject, spec_intercom_reply_address(my_actor, id), body)
}

/// The host-provided transport primitive: a synchronous, one-shot call
/// into a named capability, plus the host's correlation id source and its
/// delayed-publication scheduler.
///
/// Nothing is promised of an implementation: every contract of the
/// dispatcher states what holds whatever a transport call returned.
pub trait Transport {
    /// Produces a fresh correlation id, with overwhelming probability not
    /// currently registered; a failure of the id source is reported as an
    /// error, never as an empty or reused id.
    fn generate_id(&mut self) -> Result<String, String>;

    /// Invokes `operation` of the capability `capability_id` with
    /// `payload`, returning the capability's response bytes.
    fn invoke(&mut self, capability_id: &str, operation: &str, payload: Vec<u8>) -> Result<
        Vec<u8>,
        String,
    >;

    /// Hands `body` to the host scheduler for publication on `subject`
    /// after `delay_seconds`; the scheduler's own envelope encoding is its
    /// affair.
    fn publish_delayed(&mut self, delay_seconds: u64, subject: &str, body: Vec<u8>) -> Result<
        Vec<u8>,
        String,
    >;
}

/// A request dispatcher: the callback registry together with the transport
/// it publishes through.
pub struct Dispatcher<T, C> {
    transport: T,
    registry: StringMap<C>,
    sent_log: Ghost<Seq<(Seq<char>, Seq<char>, Seq<u8>)>>,
    delay_log: Ghost<Seq<(u64, Seq<char>, Seq<u8>)>>,
}

/// A one-shot reply callback.  Invocation consumes the callback, and the
/// dispatcher is handed along so that a callback may register follow-up
/// requests of its own.
pub trait ReplyCallback<T: Transport>: Sized {
    /// What an invocation promises: a relation between the registry as the
    /// callback received it, the registry as it left it, the message, and
    /// its result.  It holds trivially unless an implementation says more.
    open spec fn post(
        self,
        pre: Map<Seq<char>, Self>,
        post: Map<Seq<char>, Self>,
        msg: BrokerMessage,
        r: Result<(), ActorError>,
    ) -> bool {
        true
    }

    /// Handles the reply `msg`.  `dispatcher` is the dispatcher the
    /// callback was registered with, with this callback already removed.
    fn invoke(self, dispatcher: &mut Dispatcher<T, Self>, msg: &BrokerMessage) -> (r: Result<
        (),
        ActorError,
    >)
        ensures
            self.post(old(dispatcher).pending(), final(dispatcher).pending(), *msg, r),
    ;
}

impl<T, C> Dispatcher<T, C> {
    /// The registered callbacks, by correlation id.
    pub closed spec fn pending(&self) -> Map<Seq<char>, C> {
        self.registry@
    }

    /// The transport the dispatcher publishes through.
    pub closed spec fn spec_transport(&self) -> T {
        self.transport
    }

    /// The capability invocations handed to the transport for immediate
    /// dispatch, in order: capability id, operation name, payload bytes.
    /// An invocation is recorded when it is handed over, whether or not
    /// the transport then reported success.
    pub closed spec fn sent(&self) -> Seq<(Seq<char>, Seq<char>, Seq<u8>)> {
        self.sent_log@
    }

    /// The publications handed to the host scheduler, in order: the delay
    /// in seconds, the subject, and the body.
    pub closed spec fn delayed(&self) -> Seq<(u64, Seq<char>, Seq<u8>)> {
        self.delay_log@
    }

    /// A dispatcher around `transport` with nothing registered and nothing
    /// sent.
    pub fn new(transport: T) -> (r: Self)
        ensures
            r.pending() == Map::<Seq<char>, C>::empty(),
            r.sent() == Seq::<(Seq<char>, Seq<char>, Seq<u8>)>::empty(),
            r.delayed() == Seq::<(u64, Seq<char>, Seq<u8>)>::empty(),
            r.spec_transport() == transport,
    {
        Dispatcher {
            transport,
            registry: StringMap::new(),
            sent_log: Ghost(Seq::empty()),
            delay_log: Ghost(Seq::empty()),
        }
    }

    /// A reference to the transport.
    pub fn transport(&self) -> (r: &T)
        ensures
            *r == self.spec_transport(),
    {
        &self.transport
    }
}

impl<T: Transport, C: ReplyCallback<T>> Dispatcher<T, C> {
    /// A fresh correlation id from the host's id source.
    pub fn get_uuid(&mut self) -> (r: Result<String, ActorError>)
        ensures
            final(self).pending() == old(self).pending(),
            final(self).sent() == old(self).sent(),
            final(self).delayed() == old(self).delayed(),
            r matches Err(e) ==> e is IdGeneration,
    {
        match self.transport.generate_id() {
            Ok(id) => Ok(id),
            Err(m) => Err(ActorError::IdGeneration(m)),
        }
    }

    /// Registers `callback` under a fresh correlation id and publishes a
    /// broker message on `subject` whose reply address is `reply_to` with
    /// the id as its trailing segment.
    ///
    /// The callback is registered before anything is handed to the
    /// transport, so a reply arriving synchronously after this call
    /// returns already finds it.  A publish failure is not surfaced: the
    /// caller has registered interest and returns success; the entry then
    /// simply stays unclaimed.  Only a failure of the id source — with
    /// nothing registered and nothing sent — is returned; the encoder, per
    /// its contract, does not fail.
    pub fn call(&mut self, subject: &str, reply_to: &str, param: Vec<u8>, callback: C) -> (r:
        Result<(), ActorError>)
        ensures
            final(self).delayed() == old(self).delayed(),
            r is Ok ==> exists|id: Seq<char>|
                final(self).pending() == #[trigger] old(self).pending().insert(id, callback)
                    && final(self).sent() == old(self).sent().push(
                    (
                        "wascc:messaging"@,
                        "Publish"@,
                        broker_message_bytes(
                            subject@,
                            address::spec_with_segment(reply_to@, id),
                            param@,
                        ),
                    ),
                ),
            r matches Err(e) ==> e is IdGeneration && final(self).pending() == old(self).pending() && final(self).sent() == old(self).sent(),
    {
        let id = match self.transport.generate_id() {
            Ok(id) => id,
            Err(m) => {
                return Err(ActorError::IdGeneration(m));
            },
        };
        let reply = address::with_segment(reply_to, id.as_str());
        let ghost idv = id@;
        let ghost cb = callback;
        self.registry.insert(id, callback);
        proof {
            assert(self.pending() == old(self).pending().insert(idv, cb));
        }
        match codec::encode_broker_message(subject, reply.as_str(), param.as_slice()) {
            Ok(bytes) => {
                self.sent_log = Ghost(
                    self.sent_log@.push(("wascc:messaging"@, "Publish"@, bytes@)),
                );
                proof {
                    assert(bytes@ == broker_message_bytes(
                        subject@,
                        address::spec_with_segment(reply_to@, idv),
                        param@,
                    ));
                }
                // A publish failure is deliberately swallowed; the reply,
                // if any, is observable only through the callback.
                let _ = self.transport.invoke("wascc:messaging", "Publish", bytes);
                Ok(())
            },
            Err(m) => Err(ActorError::Serialization(m)),
        }
    }

    /// Registers `callback` under a fresh correlation id and hands `param`
    /// to the host scheduler for delayed publication on `subject` with the
    /// id as its trailing segment.  As with [`Self::call`], a scheduler
    /// failure is not surfaced; only an id-source failure is.
    pub fn delay_call(&mut self, subject: &str, param: Vec<u8>, delay_seconds: u64, callback: C)
        -> (r: Result<(), ActorError>)
        ensures
            final(self).sent() == old(self).sent(),
            r is Ok ==> exists|id: Seq<char>|
                final(self).pending() == #[trigger] old(self).pending().insert(id, callback)
                    && final(self).delayed() == old(self).delayed().push(
                    (delay_seconds, address::spec_with_segment(subject@, id), param@),
                ),
            r matches Err(e) ==> e is IdGeneration && final(self).pending() == old(self).pending() && final(self).delayed() == old(self).delayed(),
    {
        let id = match self.transport.generate_id() {
            Ok(id) => id,
            Err(m) => {
                return Err(ActorError::IdGeneration(m));
            },
        };
        let delayed_subject = address::with_segment(subject, id.as_str());
        let ghost idv = id@;
        let ghost cb = callback;
        self.registry.insert(id, callback);
        proof {
            assert(self.pending() == old(self).pending().insert(idv, cb));
        }
        self.delay_log = Ghost(
            self.delay_log@.push((delay_seconds, delayed_subject@, param@)),
        );
        let _ = self.transport.publish_delayed(delay_seconds, delayed_subject.as_str(), param);
        Ok(())
    }

    /// Dispatches an inbound reply: the callback registered under `uuid`
    /// is removed and invoked with `msg`, and its result is handed back.
    /// An unmatched reply is dropped: nothing is invoked, nothing is sent,
    /// the registry is unchanged, and the result is success, since no
    /// caller is left waiting.
    ///
    /// The registry operation completes before the callback runs, so the
    /// callback receives the dispatcher with its own entry already gone: a
    /// second reply under the same id finds nothing, and the callback may
    /// re-enter the dispatcher freely.
    pub fn result_handler(&mut self, msg: &BrokerMessage, uuid: &str) -> (r: Result<
        (),
        ActorError,
    >)
        ensures
            !old(self).pending().contains_key(uuid@) ==> r is Ok && final(self).pending() == old(self).pending() && final(self).sent() == old(self).sent() && final(self).delayed() == old(self).delayed(),
            old(self).pending().contains_key(uuid@) ==> old(self).pending()[uuid@].post(
                old(self).pending().remove(uuid@),
                final(self).pending(),
                *msg,
                r,
            ),
    {
        match self.registry.remove(uuid) {
            Some(callback) => callback.invoke(self, msg),
            None => Ok(()),
        }
    }

    /// Registers `callback` under a fresh correlation id and requests
    /// `send_to_actor` over the intercom, with `reply_actor` named in the
    /// reply address.
    ///
    /// Failures that precede the handoff surface here: a failed id source
    /// (nothing registered), a pre-filled reply address, or an oversized
    /// body — for the latter two the callback is already registered and
    /// stays so, unclaimed.  A failure of the transport itself is not
    /// surfaced, as with [`Self::call`].
    pub fn call_async_intercom(
        &mut self,
        send_to_actor: &str,
        reply_actor: &str,
        msg: BrokerMessage,
        callback: C,
    ) -> (r: Result<(), ActorError>)
        ensures
            final(self).delayed() == old(self).delayed(),
            msg.reply_to@.len() > 0 ==> r is Err,
            r is Ok ==> msg.reply_to@.len() == 0 && exists|id: Seq<char>|
                final(self).pending() == #[trigger] old(self).pending().insert(id, callback)
                    && spec_request_inner_bytes(msg.subject@, reply_actor@, id, msg.body@).len()
                    <= MAX_INTERCOM_BODY_BYTES && final(self).sent() == old(self).sent().push(
                    (
                        "tea:intercom"@,
                        OP_INTERCOM_MESSAGE@,
                        broker_message_bytes(
                            address::spec_with_segment("request"@, send_to_actor@),
                            spec_intercom_reply_address(reply_actor@, id),
                            spec_request_inner_bytes(msg.subject@, reply_actor@, id, msg.body@),
                        ),
                    ),
                ),
            r matches Err(e) ==> final(self).sent() == old(self).sent() && (
            (e is IdGeneration && final(self).pending() == old(self).pending())
                || (e is ReplyToNotEmpty && msg.reply_to@.len() > 0 && exists|id: Seq<char>|
                    final(self).pending() == #[trigger] old(self).pending().insert(id, callback))
                || (e is OversizedPayload && exists|id: Seq<char>|
                    final(self).pending() == #[trigger] old(self).pending().insert(id, callback)
                        && spec_request_inner_bytes(
                        msg.subject@,
                        reply_actor@,
                        id,
                        msg.body@,
                    ).len() > MAX_INTERCOM_BODY_BYTES)),
    {
        let id = match self.transport.generate_id() {
            Ok(id) => id,
            Err(m) => {
                return Err(ActorError::IdGeneration(m));
            },
        };
        let ghost idv = id@;
        let ghost cb = callback;
        self.registry.insert(id.clone(), callback);
        proof {
            assert(self.pending() == old(self).pending().insert(idv, cb));
        }
        match self.request_intercom(send_to_actor, reply_actor, id, msg) {
            Ok(_) => Ok(()),
            // A failure past the handoff is fire-and-forget, like a failed
            // publish in `call`; the entry stays registered, unclaimed.
            Err(ActorError::Transport(_)) => Ok(()),
            Err(e) => Err(e),
        }
    }

    /// Publishes `msg` to `actor_name` over the intercom, fire-and-forget,
    /// and returns the transport's direct response.  The encoded message
    /// is rejected locally, before anything is handed to the transport,
    /// exactly when it exceeds [`MAX_INTERCOM_BODY_BYTES`].
    pub fn post_intercom(&mut self, actor_name: &str, msg: &BrokerMessage) -> (r: Result<
        Vec<u8>,
        ActorError,
    >)
        ensures
            final(self).pending() == old(self).pending(),
            final(self).delayed() == old(self).delayed(),
            (r matches Err(e) && e is OversizedPayload) <==> broker_message_bytes(
                msg.subject@,
                msg.reply_to@,
                msg.body@,
            ).len() > MAX_INTERCOM_BODY_BYTES,
            r matches Err(e) ==> e is OversizedPayload || e is Transport,
            broker_message_bytes(msg.subject@, msg.reply_to@, msg.body@).len()
                > MAX_INTERCOM_BODY_BYTES ==> final(self).sent() == old(self).sent(),
            broker_message_bytes(msg.subject@, msg.reply_to@, msg.body@).len()
                <= MAX_INTERCOM_BODY_BYTES ==> final(self).sent() == old(self).sent().push(
                (
                    "tea:intercom"@,
                    OP_INTERCOM_MESSAGE@,
                    broker_message_bytes(
                        address::spec_with_segment("post"@, actor_name@),
                        ""@,
                        broker_message_bytes(msg.subject@, msg.reply_to@, msg.body@),
                    ),
                ),
            ),
    {
        let subject = address::post_subject(actor_name);
        let bytes = match serialize_msg(subject.as_str(), "", msg) {
            Ok(b) => b,
            Err(e) => {
                return Err(e);
            },
        };
        self.sent_log = Ghost(
            self.sent_log@.push(("tea:intercom"@, OP_INTERCOM_MESSAGE@, bytes@)),
        );
        match self.transport.invoke("tea:intercom", OP_INTERCOM_MESSAGE, bytes) {
            Ok(res) => Ok(res),
            Err(m) => Err(ActorError::Transport(m)),
        }
    }

    /// Requests `actor_name` over the intercom, expecting a reply: the
    /// reply address `"reply.<my_actor_name>.<uuid>"` is assigned here, so
    /// the caller must leave the message's reply address empty.  The
    /// encoded message is rejected locally, before anything is handed to
    /// the transport, exactly when it exceeds [`MAX_INTERCOM_BODY_BYTES`].
    pub fn request_intercom(
        &mut self,
        actor_name: &str,
        my_actor_name: &str,
        uuid: String,
        msg: BrokerMessage,
    ) -> (r: Result<Vec<u8>, ActorError>)
        ensures
            final(self).pending() == old(self).pending(),
            final(self).delayed() == old(self).delayed(),
            (r matches Err(e) && e is ReplyToNotEmpty) <==> msg.reply_to@.len() > 0,
            msg.reply_to@.len() == 0 ==> ((r matches Err(e) && e is OversizedPayload)
                <==> spec_request_inner_bytes(msg.subject@, my_actor_name@, uuid@, msg.body@).len()
                > MAX_INTERCOM_BODY_BYTES),
            r matches Err(e) ==> e is ReplyToNotEmpty || e is OversizedPayload || e is Transport,
            (r matches Err(e) && (e is ReplyToNotEmpty || e is OversizedPayload)) ==> final(self).sent() == old(self).sent(),
            msg.reply_to@.len() == 0 && spec_request_inner_bytes(
                msg.subject@,
                my_actor_name@,
                uuid@,
                msg.body@,
            ).len() <= MAX_INTERCOM_BODY_BYTES ==> final(self).sent() == old(self).sent().push(
                (
                    "tea:intercom"@,
                    OP_INTERCOM_MESSAGE@,
                    broker_message_bytes(
                        address::spec_with_segment("request"@, actor_name@),
                        spec_intercom_reply_address(my_actor_name@, uuid@),
                        spec_request_inner_bytes(msg.subject@, my_actor_name@, uuid@, msg.body@),
                    ),
                ),
            ),
            r is Ok ==> msg.reply_to@.len() == 0 && spec_request_inner_bytes(
                msg.subject@,
                my_actor_name@,
                uuid@,
                msg.body@,
            ).len() <= MAX_INTERCOM_BODY_BYTES,
    {
        if !msg.reply_to.as_str().is_empty() {
            return Err(ActorError::ReplyToNotEmpty);
        }
        let reply = address::reply_subject(my_actor_name, uuid.as_str());
        let subject = address::request_subject(actor_name);
        let inner = BrokerMessage { subject: msg.subject, reply_to: reply, body: msg.body };
        let bytes = match serialize_msg(subject.as_str(), inner.reply_to.as_str(), &inner) {
            Ok(b) => b,
            Err(e) => {
                return Err(e);
            },
        };
        self.sent_log = Ghost(
            self.sent_log@.push(("tea:intercom"@, OP_INTERCOM_MESSAGE@, bytes@)),
        );
        match self.transport.invoke("tea:intercom", OP_INTERCOM_MESSAGE, bytes) {
            Ok(res) => Ok(res),
            Err(m) => Err(ActorError::Transport(m)),
        }
    }

    /// Publishes `body` on the broker as a direct answer: the published
    /// message carries `subject` as its subject and `reply_to` as its
    /// reply address.  This path registers no callback; a publish failure
    /// is surfaced.
    pub fn response_reply_with_subject(&mut self, reply_to: &str, subject: &str, body: Vec<u8>)
        -> (r: Result<(), ActorError>)
        ensures
            final(self).pending() == old(self).pending(),
            final(self).delayed() == old(self).delayed(),
            r matches Err(e) ==> e is Transport,
            final(self).sent() == old(self).sent().push(
                (
                    "wascc:messaging"@,
                    "Publish"@,
                    broker_message_bytes(subject@, reply_to@, body@),
                ),
            ),
    {
        let bytes = match codec::encode_broker_message(subject, reply_to, body.as_slice()) {
            Ok(b) => b,
            Err(m) => {
                return Err(ActorError::Serialization(m));
            },
        };
        self.sent_log = Ghost(self.sent_log@.push(("wascc:messaging"@, "Publish"@, bytes@)));
        match self.transport.invoke("wascc:messaging", "Publish", bytes) {
            Ok(_) => Ok(()),
            Err(m) => Err(ActorError::Transport(m)),
        }
    }

    /// Publishes `body` on the broker to the address a received message
    /// asked to be answered at.
    pub fn response_reply_to(&mut self, reply_to: &str, body: Vec<u8>) -> (r: Result<
        (),
        ActorError,
    >)
        ensures
            final(self).pending() == old(self).pending(),
            final(self).delayed() == old(self).delayed(),
            r matches Err(e) ==> e is Transport,
            final(self).sent() == old(self).sent().push(
                ("wascc:messaging"@, "Publish"@, broker_message_bytes(""@, reply_to@, body@)),
            ),
    {
        self.response_reply_with_subject(reply_to, "", body)
    }

    /// Answers an incoming intercom message on `subject`.  This is the
    /// only way to respond to an intercom request: it registers no
    /// callback and expects no reply, so a conversation always ends here
    /// rather than ping-ponging forever.  A transport failure is not
    /// surfaced, and the encoder does not fail, so the answer always
    /// reports success.
    pub fn reply_intercom(&mut self, subject: &str, body: Vec<u8>) -> (r: Result<(), ActorError>)
        ensures
            r is Ok,
            final(self).pending() == old(self).pending(),
            final(self).delayed() == old(self).delayed(),
            final(self).sent() == old(self).sent().push(
                (
                    "tea:intercom"@,
                    OP_INTERCOM_MESSAGE@,
                    broker_message_bytes(subject@, ""@, body@),
                ),
            ),
    {
        let bytes = match codec::encode_broker_message(subject, "", body.as_slice()) {
            Ok(b) => b,
            Err(m) => {
                return Err(ActorError::Serialization(m));
            },
        };
        self.sent_log = Ghost(
            self.sent_log@.push(("tea:intercom"@, OP_INTERCOM_MESSAGE@, bytes@)),
        );
        let _ = self.transport.invoke("tea:intercom", OP_INTERCOM_MESSAGE, bytes);
        Ok(())
    }
}

/// Encodes `msg`, rejects it exactly when the encoding exceeds the
/// intercom size limit, and frames the encoded bytes as the body of an
/// outer broker message with the given subject and reply address.
fn serialize_msg(subject: &str, reply_to: &str, msg: &BrokerMessage) -> (r: Result<
    Vec<u8>,
    ActorError,
>)
    ensures
        r is Ok <==> broker_message_bytes(msg.subject@, msg.reply_to@, msg.body@).len()
            <= MAX_INTERCOM_BODY_BYTES,
        r matches Err(e) ==> e is OversizedPayload,
        r matches Ok(bytes) ==> bytes@ == broker_message_bytes(
            subject@,
            reply_to@,
            broker_message_bytes(msg.subject@, msg.reply_to@, msg.body@),
        ),
{
    let body = match codec::encode_broker_message(
        msg.subject.as_str(),
        msg.reply_to.as_str(),
        msg.body.as_slice(),
    ) {
        Ok(b) => b,
        Err(m) => {
            return Err(ActorError::Serialization(m));
        },
    };
    if body.len() > MAX_INTERCOM_BODY_BYTES {
        return Err(ActorError::OversizedPayload);
    }
    match codec::encode_broker_message(subject, reply_to, body.as_slice()) {
        Ok(bytes) => Ok(bytes),
        Err(m) => Err(ActorError::Serialization(m)),
    }
}

/// At-most-once delivery: once the entry for a correlation id has been
/// claimed, the registry no longer holds the id, so a second claim of the
/// same id finds nothing and invokes nothing.
pub proof fn lemma_claim_at_most_once<C>(pending: Map<Seq<char>, C>, id: Seq<char>)
    requires
        pending.contains_key(id),
    ensures
        !pending.remove(id).contains_key(id),
{
}

/// Registration before send: the registry state a successful call leaves
/// behind holds the callback under the generated correlation id, so a
/// reply dispatched for that id immediately afterward finds exactly that
/// callback.
pub proof fn lemma_registration_before_send<C>(
    pending: Map<Seq<char>, C>,
    id: Seq<char>,
    callback: C,
)
    ensures
        pending.insert(id, callback).contains_key(id),
        pending.insert(id, callback)[id] == callback,
{
}

/// No cross-talk: claiming one correlation id leaves every other
/// registered callback in place, under its own id, with its own value.
pub proof fn lemma_no_cross_talk<C>(pending: Map<Seq<char>, C>, id1: Seq<char>, id2: Seq<char>)
    requires
        pending.contains_key(id1),
        pending.contains_key(id2),
        id1 != id2,
    ensures
        pending.remove(id2).contains_key(id1),
        pending.remove(id2)[id1] == pending[id1],
{
}

} // verus!
