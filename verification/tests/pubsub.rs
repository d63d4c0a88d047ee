use jsonrpc_client::error::Error;
use jsonrpc_client::json::{Json, JsonNumber};
use jsonrpc_client::params::Params;
use jsonrpc_client::pubsub::{
    params_to_subscription_message, HandlerAction, HandlerEvent, HandlerStage, ItemOutcome,
    MessageOutcome, NotificationHandler, StreamStep, SubscribeError, Subscriber, SubscriberMsg,
    SubscriptionId, SubscriptionMessage, UnsubscribeParameters,
};

type Handler = NotificationHandler<&'static str>;

fn text(s: &str) -> Json {
    Json::String(s.to_string())
}

fn sid(s: &str) -> SubscriptionId {
    SubscriptionId::String(s.to_string())
}

fn message(id: &str, item: u64) -> HandlerEvent<&'static str> {
    HandlerEvent::Message(MessageOutcome::Item(SubscriberMsg::NewMessage(SubscriptionMessage {
        subscription: sid(id),
        result: Json::Number(JsonNumber::PosInt(item)),
    })))
}

fn joined(id: &str, who: &'static str) -> HandlerEvent<&'static str> {
    HandlerEvent::Message(MessageOutcome::Item(SubscriberMsg::NewSubscriber(sid(id), who)))
}

fn left(id: &str) -> HandlerEvent<&'static str> {
    HandlerEvent::Message(MessageOutcome::Item(SubscriberMsg::RemoveSubscriber(sid(id))))
}

fn new_heads() -> Handler {
    NotificationHandler::with_parameters(
        "newHeads".to_string(),
        "eth_unsubscribe".to_string(),
        UnsubscribeParameters::SubscriptionId,
    )
}

fn unsubscribe(id: &str) -> HandlerAction {
    HandlerAction::Unsubscribe {
        method: "eth_unsubscribe".to_string(),
        parameters: Json::Array(vec![text(id)]),
    }
}

#[test]
fn named_parameters_are_read_as_a_notification() {
    let params = Some(Params::Object(vec![
        ("subscription".to_string(), text("0xabc")),
        ("result".to_string(), Json::Bool(true)),
    ]));
    assert_eq!(
        params_to_subscription_message::<u8>(params),
        Some(SubscriberMsg::NewMessage(SubscriptionMessage {
            subscription: sid("0xabc"),
            result: Json::Bool(true),
        }))
    );
}

#[test]
fn two_positional_parameters_are_read_as_a_notification() {
    let params = Some(Params::Array(vec![Json::Number(JsonNumber::PosInt(7)), Json::Null]));
    assert_eq!(
        params_to_subscription_message::<u8>(params),
        Some(SubscriberMsg::NewMessage(SubscriptionMessage {
            subscription: SubscriptionId::Num(7),
            result: Json::Null,
        }))
    );
}

#[test]
fn malformed_parameters_are_no_notification() {
    assert_eq!(params_to_subscription_message::<u8>(None), None);
    let no_result = Some(Params::Object(vec![("subscription".to_string(), text("x"))]));
    assert_eq!(params_to_subscription_message::<u8>(no_result), None);
    let bad_id = Some(Params::Object(vec![
        ("subscription".to_string(), Json::Bool(false)),
        ("result".to_string(), Json::Null),
    ]));
    assert_eq!(params_to_subscription_message::<u8>(bad_id), None);
    let negative = Some(Params::Array(vec![Json::Number(JsonNumber::NegInt(-1)), Json::Null]));
    assert_eq!(params_to_subscription_message::<u8>(negative), None);
    let three = Some(Params::Array(vec![text("x"), Json::Null, Json::Null]));
    assert_eq!(params_to_subscription_message::<u8>(three), None);
}

#[test]
fn subscription_id_is_a_number_or_a_string() {
    assert_eq!(
        SubscriptionId::from_json(&Json::Number(JsonNumber::PosInt(3))),
        Some(SubscriptionId::Num(3))
    );
    assert_eq!(SubscriptionId::from_json(&text("0xabc")), Some(sid("0xabc")));
    assert_eq!(SubscriptionId::from_json(&Json::Null), None);
    assert_eq!(
        SubscriptionId::from_json(&Json::Number(JsonNumber::Real("1.5".to_string()))),
        None
    );
    assert!(sid("a").same(&sid("a")));
    assert!(!sid("a").same(&sid("b")));
    assert!(!sid("1").same(&SubscriptionId::Num(1)));
}

#[test]
fn three_notifications_are_delivered_in_order_and_a_drop_unsubscribes() {
    let mut handler = new_heads();
    assert_eq!(handler.poll(HandlerEvent::Wake), HandlerAction::PollMessages);
    assert_eq!(handler.poll(joined("0xabc", "sub")), HandlerAction::PollMessages);
    assert_eq!(handler.subscriber(&sid("0xabc")), Some(&"sub"));
    for item in 1..=3u64 {
        assert_eq!(
            handler.poll(message("0xabc", item)),
            HandlerAction::Deliver {
                to: sid("0xabc"),
                message: Json::Number(JsonNumber::PosInt(item)),
            }
        );
        assert!(handler.is_busy());
        assert_eq!(handler.poll(HandlerEvent::Effect(true)), HandlerAction::PollMessages);
        assert!(!handler.is_busy());
    }
    assert_eq!(handler.poll(left("0xabc")), unsubscribe("0xabc"));
    assert_eq!(handler.subscriber_count(), 0);
    assert!(handler.should_shut_down());
    assert_eq!(handler.subscriber(&sid("0xabc")), None);
    // The unsubscribe call is under way: the handler terminates.
    assert_eq!(handler.poll(HandlerEvent::Effect(false)), HandlerAction::Finish);
    assert_eq!(handler.stage(), HandlerStage::Finished);
    assert_eq!(handler.poll(HandlerEvent::Wake), HandlerAction::Finish);
}

#[test]
fn two_subscribers_leave_one_after_the_other() {
    let mut handler = new_heads();
    handler.poll(HandlerEvent::Wake);
    handler.poll(joined("X", "x"));
    handler.poll(joined("Y", "y"));
    assert_eq!(handler.subscriber_count(), 2);

    assert_eq!(handler.poll(left("X")), unsubscribe("X"));
    assert!(!handler.should_shut_down());
    assert_eq!(handler.subscriber(&sid("Y")), Some(&"y"));
    assert_eq!(handler.subscriber(&sid("X")), None);
    assert_eq!(handler.poll(HandlerEvent::Effect(true)), HandlerAction::PollMessages);

    // Y still gets its items, X gets nothing more.
    assert_eq!(
        handler.poll(message("Y", 1)),
        HandlerAction::Deliver { to: sid("Y"), message: Json::Number(JsonNumber::PosInt(1)) }
    );
    assert_eq!(handler.poll(HandlerEvent::Effect(true)), HandlerAction::PollMessages);
    assert_eq!(handler.poll(message("X", 2)), HandlerAction::PollMessages);

    assert_eq!(handler.poll(left("Y")), unsubscribe("Y"));
    assert!(handler.should_shut_down());
    assert_eq!(handler.poll(HandlerEvent::Effect(true)), HandlerAction::PollMessages);
    assert_eq!(
        handler.poll(HandlerEvent::Message(MessageOutcome::NotReady)),
        HandlerAction::Finish
    );
}

#[test]
fn side_effect_in_flight_holds_the_next_message_back() {
    let mut handler = new_heads();
    handler.poll(HandlerEvent::Wake);
    handler.poll(joined("a", "A"));
    handler.poll(message("a", 1));
    assert_eq!(handler.poll(HandlerEvent::Effect(false)), HandlerAction::Yield);
    assert_eq!(handler.stage(), HandlerStage::Idle);
    assert_eq!(handler.poll(HandlerEvent::Wake), HandlerAction::PollEffect);
    assert_eq!(handler.poll(HandlerEvent::Effect(false)), HandlerAction::Yield);
    assert_eq!(handler.poll(HandlerEvent::Wake), HandlerAction::PollEffect);
    assert_eq!(handler.poll(HandlerEvent::Effect(true)), HandlerAction::PollMessages);
}

#[test]
fn end_of_the_notifications_ends_the_handler() {
    let mut handler = new_heads();
    handler.poll(HandlerEvent::Wake);
    handler.poll(joined("a", "A"));
    assert_eq!(handler.poll(HandlerEvent::Message(MessageOutcome::Ended)), HandlerAction::Finish);
}

#[test]
fn subscriber_with_a_known_id_takes_the_place_of_the_old_one() {
    let mut handler = new_heads();
    handler.poll(HandlerEvent::Wake);
    handler.poll(joined("a", "first"));
    handler.poll(joined("b", "other"));
    handler.poll(joined("a", "second"));
    assert_eq!(handler.subscriber_count(), 2);
    assert_eq!(handler.subscriber(&sid("a")), Some(&"second"));
    assert_eq!(handler.subscriber(&sid("b")), Some(&"other"));
}

#[test]
fn removing_an_unknown_subscriber_still_unsubscribes() {
    let mut handler: Handler =
        NotificationHandler::new("newHeads".to_string(), "eth_unsubscribe".to_string());
    handler.poll(HandlerEvent::Wake);
    handler.poll(joined("a", "A"));
    assert_eq!(
        handler.poll(left("zzz")),
        HandlerAction::Unsubscribe {
            method: "eth_unsubscribe".to_string(),
            parameters: Json::Array(vec![]),
        }
    );
    assert_eq!(handler.subscriber_count(), 1);
    assert!(!handler.should_shut_down());
}

#[test]
fn first_subscribe_spawns_a_handler_and_a_second_reuses_it() {
    let mut subscriber: Subscriber<&'static str> = Subscriber::new();
    assert_eq!(subscriber.handler(&"newHeads".to_string()), None);
    let plan = subscriber.subscribe(
        "eth_subscribe".to_string(),
        "eth_unsubscribe".to_string(),
        "newHeads".to_string(),
        8,
        Json::Array(vec![text("newHeads")]),
        false,
    );
    assert_eq!(plan.method, "eth_subscribe");
    assert_eq!(plan.parameters, Json::Array(vec![text("newHeads")]));
    assert_eq!(plan.pending.buffer_size, 8);
    let request = plan.spawn.expect("a handler has to be spawned");
    assert_eq!(request.notification_method, "newHeads");
    assert_eq!(request.unsub_method, "eth_unsubscribe");

    let handler: Handler = subscriber.spawn_notification_handler(&request, true).unwrap();
    assert_eq!(handler.notification_method(), "newHeads");
    assert_eq!(handler.subscriber_count(), 0);
    assert_eq!(subscriber.handler_spawned(request, Some("control")), Ok(()));
    assert_eq!(subscriber.handler(&"newHeads".to_string()), Some(&"control"));

    let subscription = plan.pending.complete(Ok(text("0xabc"))).unwrap();
    assert_eq!(subscription.id(), Some(sid("0xabc")));
    assert_eq!(subscription.buffer_size(), 8);
    assert_eq!(subscription.notification_method(), "newHeads");
    assert_eq!(
        subscription.announce("data"),
        Some(SubscriberMsg::NewSubscriber(sid("0xabc"), "data"))
    );

    // The handler is live: no second handler.
    let again = subscriber.subscribe(
        "eth_subscribe".to_string(),
        "eth_unsubscribe".to_string(),
        "newHeads".to_string(),
        8,
        Json::Null,
        true,
    );
    assert_eq!(again.spawn, None);
    // The handler has ended: a new one takes its place.
    let again = subscriber.subscribe(
        "eth_subscribe".to_string(),
        "eth_unsubscribe".to_string(),
        "newHeads".to_string(),
        8,
        Json::Null,
        false,
    );
    let request = again.spawn.unwrap();
    assert_eq!(subscriber.handler_spawned(request, Some("control 2")), Ok(()));
    assert_eq!(subscriber.handler(&"newHeads".to_string()), Some(&"control 2"));
}

#[test]
fn failures_of_a_subscribe_have_their_own_errors() {
    let mut subscriber: Subscriber<&'static str> = Subscriber::new();
    let plan = subscriber.subscribe(
        "sub".to_string(),
        "unsub".to_string(),
        "n".to_string(),
        1,
        Json::Null,
        false,
    );
    let request = plan.spawn.unwrap();
    let refused: Result<Handler, SubscribeError> =
        subscriber.spawn_notification_handler(&request, false);
    assert!(matches!(refused, Err(SubscribeError::HandlerError)));
    assert_eq!(subscriber.handler_spawned(request, None), Err(SubscribeError::SpawnError));
    assert_eq!(subscriber.handler(&"n".to_string()), None);

    let plan = subscriber.subscribe(
        "sub".to_string(),
        "unsub".to_string(),
        "n".to_string(),
        1,
        Json::Null,
        false,
    );
    assert_eq!(
        plan.pending.complete(Ok(Json::Bool(true))),
        Err(SubscribeError::Core(Error::DeserializeError))
    );
    let plan = subscriber.subscribe(
        "sub".to_string(),
        "unsub".to_string(),
        "n".to_string(),
        1,
        Json::Null,
        false,
    );
    assert_eq!(
        plan.pending.complete(Err(Error::Shutdown)),
        Err(SubscribeError::Core(Error::Shutdown))
    );
}

#[test]
fn subscription_tells_its_handler_once_that_it_left() {
    let subscriber: Subscriber<&'static str> = Subscriber::new();
    let plan = subscriber.subscribe(
        "sub".to_string(),
        "unsub".to_string(),
        "n".to_string(),
        1,
        Json::Null,
        false,
    );
    let mut subscription = plan.pending.complete(Ok(Json::Number(JsonNumber::PosInt(5)))).unwrap();
    assert_eq!(
        subscription.unsubscribe::<u8>(),
        Some(SubscriberMsg::RemoveSubscriber(SubscriptionId::Num(5)))
    );
    assert_eq!(subscription.id(), None);
    assert_eq!(subscription.unsubscribe::<u8>(), None);
    assert_eq!(subscription.announce(1u8), None);
}

#[test]
fn stream_of_a_subscription_passes_items_on() {
    let subscriber: Subscriber<&'static str> = Subscriber::new();
    let plan = subscriber.subscribe(
        "sub".to_string(),
        "unsub".to_string(),
        "n".to_string(),
        1,
        Json::Null,
        false,
    );
    let subscription = plan.pending.complete(Ok(text("s"))).unwrap();
    assert_eq!(subscription.poll(ItemOutcome::Item(text("v"))), Ok(StreamStep::Item(text("v"))));
    assert_eq!(subscription.poll(ItemOutcome::Ended), Ok(StreamStep::Ended));
    assert_eq!(subscription.poll(ItemOutcome::NotReady), Ok(StreamStep::NotReady));
    assert_eq!(subscription.poll(ItemOutcome::Failed), Err(Error::Shutdown));
}

#[test]
fn numeric_subscription_id_is_sent_as_a_number() {
    let mut handler: Handler = NotificationHandler::with_parameters(
        "n".to_string(),
        "unsub".to_string(),
        UnsubscribeParameters::SubscriptionId,
    );
    handler.poll(HandlerEvent::Wake);
    handler.poll(HandlerEvent::Message(MessageOutcome::Item(SubscriberMsg::NewSubscriber(
        SubscriptionId::Num(4),
        "a",
    ))));
    assert_eq!(
        handler.poll(HandlerEvent::Message(MessageOutcome::Item(
            SubscriberMsg::RemoveSubscriber(SubscriptionId::Num(4))
        ))),
        HandlerAction::Unsubscribe {
            method: "unsub".to_string(),
            parameters: Json::Array(vec![Json::Number(JsonNumber::PosInt(4))]),
        }
    );
}

#[test]
fn subscriber_hands_its_unsubscribe_parameters_to_its_handlers() {
    let subscriber: Subscriber<u8> =
        Subscriber::with_unsubscribe_parameters(UnsubscribeParameters::SubscriptionId);
    let plan = subscriber.subscribe(
        "sub".to_string(),
        "unsub".to_string(),
        "n".to_string(),
        1,
        Json::Null,
        false,
    );
    let request = plan.spawn.unwrap();
    assert_eq!(request.unsub_parameters, UnsubscribeParameters::SubscriptionId);
    let mut handler: Handler = subscriber.spawn_notification_handler(&request, true).unwrap();
    handler.poll(HandlerEvent::Wake);
    assert_eq!(handler.poll(left("q")), HandlerAction::Unsubscribe {
        method: "unsub".to_string(),
        parameters: Json::Array(vec![text("q")]),
    });

    let plain: Subscriber<u8> = Subscriber::new();
    let plan = plain.subscribe(
        "sub".to_string(),
        "unsub".to_string(),
        "n".to_string(),
        1,
        Json::Null,
        false,
    );
    assert_eq!(plan.spawn.unwrap().unsub_parameters, UnsubscribeParameters::Empty);
}

#[test]
fn subscription_id_is_shown_as_its_number_or_its_string() {
    assert_eq!(SubscriptionId::Num(0).to_text(), "0");
    assert_eq!(SubscriptionId::Num(7).to_text(), "7");
    assert_eq!(SubscriptionId::Num(42).to_text(), "42");
    assert_eq!(SubscriptionId::Num(1090).to_text(), "1090");
    assert_eq!(SubscriptionId::Num(u64::MAX).to_text(), "18446744073709551615");
    assert_eq!(sid("0xabc").to_text(), "0xabc");
    assert_eq!(sid("").to_text(), "");
}

#[test]
fn handle_new_message_delivers_to_a_known_subscriber_only() {
    let mut handler = new_heads();
    // Between turns no message is awaited.
    assert_eq!(
        handler.handle_new_message(sid("a"), Json::Null),
        HandlerAction::Yield
    );
    handler.poll(HandlerEvent::Wake);
    handler.poll(joined("a", "A"));
    // Unknown subscriber: discarded, nothing in flight, table unchanged.
    assert_eq!(
        handler.handle_new_message(sid("zzz"), Json::Bool(true)),
        HandlerAction::PollMessages
    );
    assert!(!handler.is_busy());
    assert_eq!(handler.subscriber_count(), 1);
    // Known subscriber: that message to that subscriber, one side effect.
    assert_eq!(
        handler.handle_new_message(sid("a"), Json::Bool(true)),
        HandlerAction::Deliver { to: sid("a"), message: Json::Bool(true) }
    );
    assert!(handler.is_busy());
    assert_eq!(handler.subscriber_count(), 1);
    assert_eq!(handler.stage(), HandlerStage::Effect);
    // While it is in flight the next message is not taken.
    assert_eq!(
        handler.handle_new_message(sid("a"), Json::Bool(false)),
        HandlerAction::Yield
    );
    assert_eq!(handler.poll(HandlerEvent::Effect(true)), HandlerAction::PollMessages);
    assert_eq!(
        handler.handle_new_message(sid("a"), Json::Bool(false)),
        HandlerAction::Deliver { to: sid("a"), message: Json::Bool(false) }
    );
}

#[test]
fn handler_steps_count_only_while_a_message_is_awaited() {
    let mut handler = new_heads();
    handler.handle_new_subscription(sid("a"), "A");
    assert_eq!(handler.subscriber_count(), 0);
    assert_eq!(handler.handle_removal(sid("a")), HandlerAction::Yield);
    assert!(!handler.should_shut_down());
    assert!(!handler.is_busy());

    handler.poll(HandlerEvent::Wake);
    handler.handle_new_subscription(sid("a"), "A");
    handler.handle_new_subscription(sid("b"), "B");
    assert_eq!(handler.subscriber_count(), 2);
    assert_eq!(handler.handle_removal(sid("a")), unsubscribe("a"));
    assert_eq!(handler.subscriber_count(), 1);
    assert!(handler.is_busy());
    assert!(!handler.should_shut_down());
    // The unsubscribe call is in flight: the next removal is not taken.
    assert_eq!(handler.handle_removal(sid("b")), HandlerAction::Yield);
    assert_eq!(handler.subscriber_count(), 1);
    assert!(!handler.ready_for_next_connection(false));
    assert!(handler.is_busy());
    assert!(handler.ready_for_next_connection(true));
    assert!(!handler.is_busy());
    assert!(handler.ready_for_next_connection(false));
}
