use actor_util::action::{Dispatcher, ReplyCallback, Transport, OP_INTERCOM_MESSAGE};
use actor_util::address::trailing_segment;
use actor_util::error::ActorError;
use actor_util::message::BrokerMessage;

/// A transport that records everything handed to it and serves correlation
/// ids from a fixed list.
struct MockTransport {
    ids: Vec<String>,
    next_id: usize,
    published: Vec<(String, String, Vec<u8>)>,
    delayed: Vec<(u64, String, Vec<u8>)>,
    fail_ids: bool,
    fail_invoke: bool,
}

impl MockTransport {
    fn with_ids(ids: Vec<&str>) -> Self {
        MockTransport {
            ids: ids.into_iter().map(|s| s.to_string()).collect(),
            next_id: 0,
            published: Vec::new(),
            delayed: Vec::new(),
            fail_ids: false,
            fail_invoke: false,
        }
    }

    fn failing_ids() -> Self {
        let mut t = MockTransport::with_ids(vec![]);
        t.fail_ids = true;
        t
    }
}

impl Transport for MockTransport {
    fn generate_id(&mut self) -> Result<String, String> {
        if self.fail_ids {
            return Err("id source down".to_string());
        }
        let id = self.ids[self.next_id].clone();
        self.next_id += 1;
        Ok(id)
    }

    fn invoke(
        &mut self,
        capability_id: &str,
        operation: &str,
        payload: Vec<u8>,
    ) -> Result<Vec<u8>, String> {
        if self.fail_invoke {
            return Err("capability unavailable".to_string());
        }
        self.published
            .push((capability_id.to_string(), operation.to_string(), payload));
        Ok(b"direct-response".to_vec())
    }

    fn publish_delayed(
        &mut self,
        delay_seconds: u64,
        subject: &str,
        body: Vec<u8>,
    ) -> Result<Vec<u8>, String> {
        self.delayed.push((delay_seconds, subject.to_string(), body));
        Ok(Vec::new())
    }
}

/// A callback whose invocation is observable through the handler's result.
enum TestCallback {
    /// Reports its tag (and the reply body) as an error, so a test sees
    /// exactly which callback fired and with what.
    Tagged(&'static str),
    /// Issues a nested request from within its own invocation.
    Reentrant,
}

impl ReplyCallback<MockTransport> for TestCallback {
    fn invoke(
        self,
        dispatcher: &mut Dispatcher<MockTransport, Self>,
        msg: &BrokerMessage,
    ) -> Result<(), ActorError> {
        match self {
            TestCallback::Tagged(tag) => Err(ActorError::Callback(format!(
                "{}:{}",
                tag,
                String::from_utf8(msg.body.clone()).unwrap()
            ))),
            TestCallback::Reentrant => dispatcher.call(
                "nested.subject",
                "nested.reply",
                b"nested-payload".to_vec(),
                TestCallback::Tagged("inner"),
            ),
        }
    }
}

fn decode_broker(payload: &[u8]) -> wascc_codec::messaging::BrokerMessage {
    wascc_codec::deserialize(payload).unwrap()
}

fn reply(body: &[u8]) -> BrokerMessage {
    BrokerMessage {
        subject: "ignored".to_string(),
        reply_to: String::new(),
        body: body.to_vec(),
    }
}

#[test]
fn call_publishes_with_id_in_reply_address() {
    let mut d = Dispatcher::new(MockTransport::with_ids(vec!["abc123"]));
    d.call(
        "dest.subject",
        "actor.foo",
        b"payload".to_vec(),
        TestCallback::Tagged("cb"),
    )
    .unwrap();
    let published = &d.transport().published;
    assert_eq!(published.len(), 1);
    assert_eq!(published[0].0, "wascc:messaging");
    assert_eq!(published[0].1, "Publish");
    let sent = decode_broker(&published[0].2);
    assert_eq!(sent.subject, "dest.subject");
    assert_eq!(sent.reply_to, "actor.foo.abc123");
    assert_eq!(sent.body, b"payload".to_vec());
}

#[test]
fn registration_before_send_finds_callback() {
    let mut d = Dispatcher::new(MockTransport::with_ids(vec!["abc123"]));
    d.call(
        "dest.subject",
        "actor.foo",
        b"payload".to_vec(),
        TestCallback::Tagged("cb"),
    )
    .unwrap();
    let sent = decode_broker(&d.transport().published[0].2);
    let id = trailing_segment(&sent.reply_to);
    assert_eq!(id, "abc123");
    let r = d.result_handler(&reply(b"result"), &id);
    assert_eq!(r, Err(ActorError::Callback("cb:result".to_string())));
}

#[test]
fn at_most_once_second_reply_is_dropped() {
    let mut d = Dispatcher::new(MockTransport::with_ids(vec!["once-id"]));
    d.call("s", "r", Vec::new(), TestCallback::Tagged("once"))
        .unwrap();
    let first = d.result_handler(&reply(b"x"), "once-id");
    assert_eq!(first, Err(ActorError::Callback("once:x".to_string())));
    let second = d.result_handler(&reply(b"y"), "once-id");
    assert_eq!(second, Ok(()));
}

#[test]
fn no_cross_talk_between_correlation_ids() {
    let mut d = Dispatcher::new(MockTransport::with_ids(vec!["id1", "id2"]));
    d.call("s1", "r1", Vec::new(), TestCallback::Tagged("c1"))
        .unwrap();
    d.call("s2", "r2", Vec::new(), TestCallback::Tagged("c2"))
        .unwrap();
    let r2 = d.result_handler(&reply(b"m2"), "id2");
    assert_eq!(r2, Err(ActorError::Callback("c2:m2".to_string())));
    let r1 = d.result_handler(&reply(b"m1"), "id1");
    assert_eq!(r1, Err(ActorError::Callback("c1:m1".to_string())));
}

#[test]
fn unmatched_reply_is_a_no_op() {
    let mut d: Dispatcher<MockTransport, TestCallback> =
        Dispatcher::new(MockTransport::with_ids(vec![]));
    let r = d.result_handler(&reply(b"stray"), "nonexistent-id");
    assert_eq!(r, Ok(()));
    assert!(d.transport().published.is_empty());
}

#[test]
fn reentrant_callback_registers_and_fires() {
    let mut d = Dispatcher::new(MockTransport::with_ids(vec!["outer-id", "nested-id"]));
    d.call("s", "r", Vec::new(), TestCallback::Reentrant).unwrap();
    let r = d.result_handler(&reply(b"go"), "outer-id");
    assert_eq!(r, Ok(()));
    // The nested request went out with the second correlation id.
    assert_eq!(d.transport().published.len(), 2);
    let nested = decode_broker(&d.transport().published[1].2);
    assert_eq!(nested.subject, "nested.subject");
    assert_eq!(nested.reply_to, "nested.reply.nested-id");
    let r2 = d.result_handler(&reply(b"done"), "nested-id");
    assert_eq!(r2, Err(ActorError::Callback("inner:done".to_string())));
}

#[test]
fn oversized_intercom_body_is_rejected_before_any_transport_call() {
    let mut d: Dispatcher<MockTransport, TestCallback> =
        Dispatcher::new(MockTransport::with_ids(vec![]));
    let msg = BrokerMessage {
        subject: "big".to_string(),
        reply_to: String::new(),
        body: vec![0u8; 131073],
    };
    let r = d.post_intercom("target", &msg);
    assert_eq!(r, Err(ActorError::OversizedPayload));
    assert!(d.transport().published.is_empty());
}

#[test]
fn post_intercom_wraps_message_and_returns_direct_response() {
    let mut d: Dispatcher<MockTransport, TestCallback> =
        Dispatcher::new(MockTransport::with_ids(vec![]));
    let msg = BrokerMessage {
        subject: "inner.subject".to_string(),
        reply_to: String::new(),
        body: b"hello".to_vec(),
    };
    let r = d.post_intercom("target", &msg).unwrap();
    assert_eq!(r, b"direct-response".to_vec());
    let published = &d.transport().published;
    assert_eq!(published.len(), 1);
    assert_eq!(published[0].0, "tea:intercom");
    assert_eq!(published[0].1, OP_INTERCOM_MESSAGE);
    let outer = decode_broker(&published[0].2);
    assert_eq!(outer.subject, "post.target");
    assert_eq!(outer.reply_to, "");
    let inner = decode_broker(&outer.body);
    assert_eq!(inner.subject, "inner.subject");
    assert_eq!(inner.reply_to, "");
    assert_eq!(inner.body, b"hello".to_vec());
}

#[test]
fn request_intercom_rejects_prefilled_reply_address() {
    let mut d: Dispatcher<MockTransport, TestCallback> =
        Dispatcher::new(MockTransport::with_ids(vec![]));
    let msg = BrokerMessage {
        subject: "s".to_string(),
        reply_to: "already.set".to_string(),
        body: Vec::new(),
    };
    let r = d.request_intercom("target", "me", "rid".to_string(), msg);
    assert_eq!(r, Err(ActorError::ReplyToNotEmpty));
    assert!(d.transport().published.is_empty());
}

#[test]
fn request_intercom_assigns_reply_address() {
    let mut d: Dispatcher<MockTransport, TestCallback> =
        Dispatcher::new(MockTransport::with_ids(vec![]));
    let msg = BrokerMessage {
        subject: "inner.subject".to_string(),
        reply_to: String::new(),
        body: b"ask".to_vec(),
    };
    let r = d
        .request_intercom("target", "me", "rid".to_string(), msg)
        .unwrap();
    assert_eq!(r, b"direct-response".to_vec());
    let outer = decode_broker(&d.transport().published[0].2);
    assert_eq!(outer.subject, "request.target");
    assert_eq!(outer.reply_to, "reply.me.rid");
    let inner = decode_broker(&outer.body);
    assert_eq!(inner.subject, "inner.subject");
    assert_eq!(inner.reply_to, "reply.me.rid");
    assert_eq!(inner.body, b"ask".to_vec());
}

#[test]
fn call_async_intercom_registers_and_requests() {
    let mut d = Dispatcher::new(MockTransport::with_ids(vec!["ai1"]));
    let msg = BrokerMessage {
        subject: "inner.subject".to_string(),
        reply_to: String::new(),
        body: b"ask".to_vec(),
    };
    d.call_async_intercom("target", "me", msg, TestCallback::Tagged("async"))
        .unwrap();
    let outer = decode_broker(&d.transport().published[0].2);
    assert_eq!(outer.subject, "request.target");
    assert_eq!(outer.reply_to, "reply.me.ai1");
    let r = d.result_handler(&reply(b"answer"), "ai1");
    assert_eq!(r, Err(ActorError::Callback("async:answer".to_string())));
}

#[test]
fn reply_intercom_sends_plain_message() {
    let mut d: Dispatcher<MockTransport, TestCallback> =
        Dispatcher::new(MockTransport::with_ids(vec![]));
    d.reply_intercom("reply.them.xyz", b"the-answer".to_vec())
        .unwrap();
    let published = &d.transport().published;
    assert_eq!(published[0].0, "tea:intercom");
    assert_eq!(published[0].1, OP_INTERCOM_MESSAGE);
    let sent = decode_broker(&published[0].2);
    assert_eq!(sent.subject, "reply.them.xyz");
    assert_eq!(sent.reply_to, "");
    assert_eq!(sent.body, b"the-answer".to_vec());
}

#[test]
fn delay_call_suffixes_subject_and_registers() {
    let mut d = Dispatcher::new(MockTransport::with_ids(vec!["d1"]));
    d.delay_call("tick", b"p".to_vec(), 30, TestCallback::Tagged("delayed"))
        .unwrap();
    let delayed = &d.transport().delayed;
    assert_eq!(delayed.len(), 1);
    assert_eq!(delayed[0].0, 30);
    assert_eq!(delayed[0].1, "tick.d1");
    assert_eq!(delayed[0].2, b"p".to_vec());
    let r = d.result_handler(&reply(b"later"), "d1");
    assert_eq!(r, Err(ActorError::Callback("delayed:later".to_string())));
}

#[test]
fn get_uuid_hands_back_host_id() {
    let mut d: Dispatcher<MockTransport, TestCallback> =
        Dispatcher::new(MockTransport::with_ids(vec!["u1"]));
    assert_eq!(d.get_uuid(), Ok("u1".to_string()));
}

#[test]
fn id_source_failure_is_surfaced_and_nothing_is_sent() {
    let mut d: Dispatcher<MockTransport, TestCallback> =
        Dispatcher::new(MockTransport::failing_ids());
    let r = d.call("s", "r", Vec::new(), TestCallback::Tagged("never"));
    assert_eq!(
        r,
        Err(ActorError::IdGeneration("id source down".to_string()))
    );
    assert!(d.transport().published.is_empty());
    assert_eq!(d.result_handler(&reply(b"x"), "anything"), Ok(()));
}

#[test]
fn publish_failure_is_swallowed_and_callback_stays_registered() {
    let mut t = MockTransport::with_ids(vec!["kept-id"]);
    t.fail_invoke = true;
    let mut d = Dispatcher::new(t);
    let r = d.call("s", "r", Vec::new(), TestCallback::Tagged("kept"));
    assert_eq!(r, Ok(()));
    let handled = d.result_handler(&reply(b"late"), "kept-id");
    assert_eq!(handled, Err(ActorError::Callback("kept:late".to_string())));
}

#[test]
fn direct_intercom_transport_failure_is_surfaced() {
    let mut t = MockTransport::with_ids(vec![]);
    t.fail_invoke = true;
    let mut d: Dispatcher<MockTransport, TestCallback> = Dispatcher::new(t);
    let msg = BrokerMessage {
        subject: "s".to_string(),
        reply_to: String::new(),
        body: Vec::new(),
    };
    let r = d.post_intercom("target", &msg);
    assert_eq!(
        r,
        Err(ActorError::Transport("capability unavailable".to_string()))
    );
}

#[test]
fn error_descriptions_name_their_condition() {
    assert_eq!(
        ActorError::OversizedPayload.describe(),
        "serialized broker message over than 128K"
    );
    assert!(ActorError::IdGeneration("x".to_string())
        .describe()
        .contains("x"));
    assert!(ActorError::Serialization("bad".to_string())
        .describe()
        .contains("bad"));
    assert!(ActorError::Transport("down".to_string())
        .describe()
        .contains("down"));
    assert!(ActorError::ReplyToNotEmpty.describe().contains("reply_to"));
    assert!(ActorError::Callback("oops".to_string())
        .describe()
        .contains("oops"));
}

#[test]
fn response_reply_publishes_to_the_asked_address() {
    let mut d: Dispatcher<MockTransport, TestCallback> =
        Dispatcher::new(MockTransport::with_ids(vec![]));
    d.response_reply_to("their.inbox", b"answer".to_vec()).unwrap();
    let published = &d.transport().published;
    assert_eq!(published[0].0, "wascc:messaging");
    assert_eq!(published[0].1, "Publish");
    let sent = decode_broker(&published[0].2);
    assert_eq!(sent.subject, "");
    assert_eq!(sent.reply_to, "their.inbox");
    assert_eq!(sent.body, b"answer".to_vec());
}

#[test]
fn response_reply_with_subject_surfaces_publish_failure() {
    let mut t = MockTransport::with_ids(vec![]);
    t.fail_invoke = true;
    let mut d: Dispatcher<MockTransport, TestCallback> = Dispatcher::new(t);
    let r = d.response_reply_with_subject("their.inbox", "topic", Vec::new());
    assert_eq!(
        r,
        Err(ActorError::Transport("capability unavailable".to_string()))
    );
}

#[test]
fn oversized_request_intercom_is_rejected_before_any_transport_call() {
    let mut d: Dispatcher<MockTransport, TestCallback> =
        Dispatcher::new(MockTransport::with_ids(vec![]));
    let msg = BrokerMessage {
        subject: "big".to_string(),
        reply_to: String::new(),
        body: vec![7u8; 200_000],
    };
    let r = d.request_intercom("target", "me", "rid".to_string(), msg);
    assert_eq!(r, Err(ActorError::OversizedPayload));
    assert!(d.transport().published.is_empty());
}

#[test]
fn intercom_size_limit_is_on_the_encoded_body_and_is_inclusive() {
    // Measure the encoding overhead for this subject so the limit can be
    // hit exactly: the limit applies to the encoded inner message, and a
    // message landing exactly on it still goes out.
    let probe = wascc_codec::serialize(wascc_codec::messaging::BrokerMessage {
        subject: "s".to_string(),
        reply_to: String::new(),
        body: vec![0u8; 100_000],
    })
    .unwrap();
    let overhead = probe.len() - 100_000;
    let at_limit = actor_util::action::MAX_INTERCOM_BODY_BYTES - overhead;

    let mut d: Dispatcher<MockTransport, TestCallback> =
        Dispatcher::new(MockTransport::with_ids(vec![]));
    let msg = BrokerMessage {
        subject: "s".to_string(),
        reply_to: String::new(),
        body: vec![0u8; at_limit],
    };
    assert!(d.post_intercom("target", &msg).is_ok());

    let over = BrokerMessage {
        subject: "s".to_string(),
        reply_to: String::new(),
        body: vec![0u8; at_limit + 1],
    };
    assert_eq!(
        d.post_intercom("target", &over),
        Err(ActorError::OversizedPayload)
    );
    // Only the message inside the limit was handed to the transport.
    assert_eq!(d.transport().published.len(), 1);
}

#[test]
fn oversized_async_intercom_is_surfaced_and_leaves_callback_registered() {
    let mut d = Dispatcher::new(MockTransport::with_ids(vec!["big-id"]));
    let msg = BrokerMessage {
        subject: "s".to_string(),
        reply_to: String::new(),
        body: vec![0u8; 200_000],
    };
    let r = d.call_async_intercom("target", "me", msg, TestCallback::Tagged("big"));
    assert_eq!(r, Err(ActorError::OversizedPayload));
    assert!(d.transport().published.is_empty());
    // The callback was registered before the size check and stays, unclaimed
    // until a reply for its id arrives.
    let handled = d.result_handler(&reply(b"late"), "big-id");
    assert_eq!(handled, Err(ActorError::Callback("big:late".to_string())));
}

#[test]
fn async_intercom_rejects_prefilled_reply_address() {
    let mut d = Dispatcher::new(MockTransport::with_ids(vec!["pre-id"]));
    let msg = BrokerMessage {
        subject: "s".to_string(),
        reply_to: "already.set".to_string(),
        body: Vec::new(),
    };
    let r = d.call_async_intercom("target", "me", msg, TestCallback::Tagged("pre"));
    assert_eq!(r, Err(ActorError::ReplyToNotEmpty));
    assert!(d.transport().published.is_empty());
}

#[test]
fn async_intercom_swallows_transport_failure() {
    let mut t = MockTransport::with_ids(vec!["tf-id"]);
    t.fail_invoke = true;
    let mut d = Dispatcher::new(t);
    let msg = BrokerMessage {
        subject: "s".to_string(),
        reply_to: String::new(),
        body: Vec::new(),
    };
    let r = d.call_async_intercom("target", "me", msg, TestCallback::Tagged("tf"));
    assert_eq!(r, Ok(()));
    let handled = d.result_handler(&reply(b"late"), "tf-id");
    assert_eq!(handled, Err(ActorError::Callback("tf:late".to_string())));
}
