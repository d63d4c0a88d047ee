use jsonrpc_client::client::{
    Action, Client, Delivery, Event, OutgoingOutcome, SendOutcome, ServerOutcome, SourceOutcome,
    Step,
};
use jsonrpc_client::handle::ClientHandle;
use jsonrpc_client::json::{Json, JsonNumber};
use jsonrpc_client::params::serialize_parameters;
use jsonrpc_client::pubsub::{
    params_to_subscription_message, HandlerAction, HandlerEvent, MessageOutcome,
    NotificationHandler, Subscriber, SubscriberMsg, SubscriptionId, UnsubscribeParameters,
};

type Engine = Client<&'static str>;
type St = Step<&'static str, &'static str>;

/// Runs the engine through one turn in which `message` is the one message of
/// the outgoing queue, and returns the payload that went to the sink.
fn send(
    engine: &mut Engine,
    message: jsonrpc_client::client::OutgoingMessage<&'static str, &'static str>,
) -> String {
    assert_eq!(engine.poll::<&'static str>(Event::Wake).next, Action::PollServer);
    assert_eq!(
        engine.poll::<&'static str>(Event::Server(ServerOutcome::Working)).next,
        Action::PollSource
    );
    assert_eq!(
        engine.poll::<&'static str>(Event::Source(SourceOutcome::NotReady)).next,
        Action::PollOutgoing
    );
    let step = engine.poll(Event::Outgoing(OutgoingOutcome::Message(message)));
    let payload = match step.next {
        Action::StartSend(payload) => payload,
        other => panic!("nothing was sent: {:?}", other),
    };
    assert_eq!(engine.poll::<&'static str>(Event::Sent(SendOutcome::Ready)).next, Action::PollOutgoing);
    assert_eq!(
        engine.poll::<&'static str>(Event::Outgoing(OutgoingOutcome::NotReady)).next,
        Action::Flush
    );
    assert_eq!(engine.poll::<&'static str>(Event::Flushed(true)).next, Action::Yield);
    payload
}

/// Runs the engine through the start of a turn in which the source has the
/// payload `text`, and returns what the engine did with it.
fn receive(engine: &mut Engine, text: &str) -> St {
    assert_eq!(engine.poll::<&'static str>(Event::Wake).next, Action::PollServer);
    assert_eq!(
        engine.poll::<&'static str>(Event::Server(ServerOutcome::Working)).next,
        Action::PollSource
    );
    engine.poll(Event::Source(SourceOutcome::Item(text.to_string())))
}

/// Ends a turn that `receive` began.
fn rest(engine: &mut Engine) {
    assert_eq!(
        engine.poll::<&'static str>(Event::Source(SourceOutcome::NotReady)).next,
        Action::PollOutgoing
    );
    assert_eq!(
        engine.poll::<&'static str>(Event::Outgoing(OutgoingOutcome::NotReady)).next,
        Action::Flush
    );
    assert_eq!(engine.poll::<&'static str>(Event::Flushed(true)).next, Action::Yield);
}

/// What the route of a notification method does with a notification text:
/// reads its parameters as a message for the handler.
fn route(text: &str) -> Option<SubscriberMsg<&'static str>> {
    let frame = Json::parse(text).unwrap();
    let params = match frame {
        Json::Object(members) => match Json::find(&members, "params") {
            Some(p) => serialize_parameters(p.clone()),
            None => None,
        },
        _ => None,
    };
    params_to_subscription_message(params)
}

#[test]
fn subscription_yields_its_items_and_unsubscribes_when_dropped() {
    let (mut engine, handle): (Engine, ClientHandle) = Client::with_server();
    let mut subscriber: Subscriber<&'static str> =
        Subscriber::with_unsubscribe_parameters(UnsubscribeParameters::SubscriptionId);

    // Subscribe: no handler yet, so one is spawned; then the call goes out.
    let plan = subscriber.subscribe(
        "eth_subscribe".to_string(),
        "eth_unsubscribe".to_string(),
        "newHeads".to_string(),
        4,
        Json::Array(vec![Json::String("newHeads".to_string())]),
        false,
    );
    let request = plan.spawn.unwrap();
    let mut handler: NotificationHandler<&'static str> =
        subscriber.spawn_notification_handler(&request, true).unwrap();
    subscriber.handler_spawned(request, Some("control")).unwrap();
    let payload = send(&mut engine, handle.call_method(plan.method, plan.parameters, "subscribe"));
    assert_eq!(
        payload,
        r#"{"jsonrpc":"2.0","method":"eth_subscribe","params":["newHeads"],"id":1}"#
    );

    // The reply carries the subscription id.
    let step = receive(&mut engine, r#"{"jsonrpc":"2.0","id":1,"result":"0xabc"}"#);
    let reply = match step.deliver {
        Some(Delivery::Reply("subscribe", reply)) => reply,
        other => panic!("no reply: {:?}", other),
    };
    rest(&mut engine);
    let mut subscription = plan.pending.complete(handle.send_client_call(Ok(()), true, Some(reply))).unwrap();
    assert_eq!(subscription.id(), Some(SubscriptionId::String("0xabc".to_string())));
    assert_eq!(handler.poll(HandlerEvent::Wake), HandlerAction::PollMessages);
    let joined = subscription.announce("data").unwrap();
    assert_eq!(
        handler.poll(HandlerEvent::Message(MessageOutcome::Item(joined))),
        HandlerAction::PollMessages
    );

    // Three notifications arrive and are delivered in order.
    let mut items = Vec::new();
    for n in 1..=3u64 {
        let text = format!(
            r#"{{"jsonrpc":"2.0","method":"newHeads","params":{{"subscription":"0xabc","result":{}}}}}"#,
            n
        );
        let step = receive(&mut engine, &text);
        assert!(matches!(step.next, Action::ProcessRequest(_)));
        assert_eq!(engine.poll::<&'static str>(Event::Processed(Ok(()))).next, Action::PollSource);
        rest(&mut engine);
        let message = route(&text).unwrap();
        match handler.poll(HandlerEvent::Message(MessageOutcome::Item(message))) {
            HandlerAction::Deliver { to, message } => {
                assert_eq!(handler.subscriber(&to), Some(&"data"));
                items.push(message);
            }
            other => panic!("not delivered: {:?}", other),
        }
        assert_eq!(handler.poll(HandlerEvent::Effect(true)), HandlerAction::PollMessages);
    }
    assert_eq!(
        items,
        vec![
            Json::Number(JsonNumber::PosInt(1)),
            Json::Number(JsonNumber::PosInt(2)),
            Json::Number(JsonNumber::PosInt(3)),
        ]
    );

    // The subscription is dropped: one unsubscribe call with the id.
    let gone = subscription.unsubscribe().unwrap();
    let (method, parameters) = match handler.poll(HandlerEvent::Message(MessageOutcome::Item(gone))) {
        HandlerAction::Unsubscribe { method, parameters } => (method, parameters),
        other => panic!("no unsubscribe: {:?}", other),
    };
    let payload = send(&mut engine, handle.call_method(method, parameters, "unsubscribe"));
    assert_eq!(
        payload,
        r#"{"jsonrpc":"2.0","method":"eth_unsubscribe","params":["0xabc"],"id":2}"#
    );
    assert_eq!(handler.poll(HandlerEvent::Effect(true)), HandlerAction::PollMessages);
    assert_eq!(
        handler.poll(HandlerEvent::Message(MessageOutcome::NotReady)),
        HandlerAction::Finish
    );
    assert_eq!(subscription.unsubscribe::<&'static str>(), None);
}

#[test]
fn unsubscribe_without_parameters_sends_an_empty_array() {
    let (mut engine, handle): (Engine, ClientHandle) = Client::new();
    let mut handler: NotificationHandler<&'static str> =
        NotificationHandler::new("n".to_string(), "unsub".to_string());
    handler.poll(HandlerEvent::Wake);
    let action = handler.poll(HandlerEvent::Message(MessageOutcome::Item(
        SubscriberMsg::RemoveSubscriber(SubscriptionId::Num(1)),
    )));
    let (method, parameters) = match action {
        HandlerAction::Unsubscribe { method, parameters } => (method, parameters),
        other => panic!("no unsubscribe: {:?}", other),
    };
    let payload = send(&mut engine, handle.call_method(method, parameters, "u"));
    assert_eq!(payload, r#"{"jsonrpc":"2.0","method":"unsub","params":[],"id":1}"#);
}

#[test]
fn json_text_round_trip() {
    let text = r#"{"a":[1,-2,3.25,"x",null,true],"b":{"c":{}}}"#;
    let value = Json::parse(text).unwrap();
    assert_eq!(value.to_text().unwrap(), text);
    assert_eq!(Json::parse("nope"), None);
    assert_eq!(Json::parse("18446744073709551615"), Some(Json::Number(JsonNumber::PosInt(u64::MAX))));
    assert_eq!(
        Json::parse("-9223372036854775808"),
        Some(Json::Number(JsonNumber::NegInt(i64::MIN)))
    );
    // Numbers with a fraction keep their value through text.
    for text in ["0.1", "1e-7", "123456789.12345679", "5e-324"] {
        let value = Json::parse(text).unwrap();
        assert_eq!(value, Json::Number(JsonNumber::Real(text.to_string())));
        assert_eq!(value.to_text().unwrap(), text);
    }
    // However a number was written, what is read from it is printed and read
    // back as the same value.
    for text in ["1.7976931348623157e308", "0.30000000000000004", "100000000000000000000", "1E2"] {
        let value = Json::parse(text).unwrap();
        let printed = value.to_text().unwrap();
        assert_eq!(Json::parse(&printed).unwrap(), value);
        assert_eq!(Json::parse(&printed).unwrap().to_text().unwrap(), printed);
    }
    // A number held as text that is no number has no text, wherever it stands.
    assert_eq!(Json::Number(JsonNumber::Real("abc".to_string())).to_text(), None);
    assert_eq!(
        Json::Array(vec![Json::Null, Json::Number(JsonNumber::Real("1,5".to_string()))]).to_text(),
        None
    );
    assert_eq!(
        Json::Object(vec![("a".to_string(), Json::Number(JsonNumber::Real("".to_string())))])
            .to_text(),
        None
    );
    // A whole number held as text is written as that number.
    assert_eq!(Json::Number(JsonNumber::Real("5".to_string())).to_text().unwrap(), "5");
}

#[test]
fn object_with_two_members_of_one_name_has_no_text() {
    let twice = Json::Object(vec![
        ("a".to_string(), Json::Bool(true)),
        ("b".to_string(), Json::Null),
        ("a".to_string(), Json::Bool(false)),
    ]);
    assert!(!twice.has_distinct_names());
    assert_eq!(twice.to_text(), None);
    let nested = Json::Array(vec![Json::Object(vec![("x".to_string(), twice)])]);
    assert!(!nested.has_distinct_names());
    assert_eq!(nested.to_text(), None);
    let fine = Json::Object(vec![
        ("a".to_string(), Json::Object(vec![("a".to_string(), Json::Null)])),
        ("b".to_string(), Json::Array(vec![Json::Object(vec![("a".to_string(), Json::Null)])])),
    ]);
    assert!(fine.has_distinct_names());
    assert_eq!(fine.to_text().unwrap(), r#"{"a":{"a":null},"b":[{"a":null}]}"#);
    assert!(Json::parse(r#"{"a":1,"a":2}"#).unwrap().has_distinct_names());
    assert_eq!(
        Json::parse(r#"{"a":1,"a":2}"#),
        Some(Json::Object(vec![("a".to_string(), Json::Number(JsonNumber::PosInt(2)))]))
    );
}

#[test]
fn call_that_cannot_be_written_fails_with_serialize_error_and_sends_nothing() {
    let (mut engine, handle): (Engine, ClientHandle) = Client::new();
    assert_eq!(engine.poll::<&'static str>(Event::Wake).next, Action::PollServer);
    engine.poll::<&'static str>(Event::Server(ServerOutcome::Working));
    engine.poll::<&'static str>(Event::Source(SourceOutcome::NotReady));
    let twice = Json::Object(vec![
        ("a".to_string(), Json::Null),
        ("a".to_string(), Json::Null),
    ]);
    let step: St = engine.poll(Event::Outgoing(OutgoingOutcome::Message(
        handle.call_method("m".to_string(), twice, "caller"),
    )));
    assert_eq!(
        step,
        Step {
            deliver: Some(Delivery::Reply(
                "caller",
                Err(jsonrpc_client::error::Error::SerializeError)
            )),
            next: Action::PollOutgoing,
        }
    );
    assert_eq!(engine.pending_calls(), 0);
    assert_eq!(engine.fatal_error(), None);
    // The id is spent; the next call gets the next one.
    let payload = {
        let step: St = engine.poll(Event::Outgoing(OutgoingOutcome::Message(
            handle.call_method("m".to_string(), Json::Null, "next"),
        )));
        match step.next {
            Action::StartSend(payload) => payload,
            other => panic!("nothing was sent: {:?}", other),
        }
    };
    assert_eq!(payload, r#"{"jsonrpc":"2.0","method":"m","id":2}"#);

    let bad_number = Json::Number(JsonNumber::Real("x".to_string()));
    engine.poll::<&'static str>(Event::Sent(SendOutcome::Ready));
    let step: St = engine.poll(Event::Outgoing(OutgoingOutcome::Message(
        handle.send_notification("n".to_string(), bad_number, "notifier"),
    )));
    assert_eq!(
        step,
        Step {
            deliver: Some(Delivery::Sent(
                "notifier",
                Err(jsonrpc_client::error::Error::SerializeError)
            )),
            next: Action::PollOutgoing,
        }
    );
}
