//! Subscriptions: one remote subscription per subscribe call, many local
//! subscribers behind one notification method.
//!
//! A [`Subscriber`] decides whether a subscribe call needs a new
//! [`NotificationHandler`]. The handler is a state machine of its own: it
//! keeps the table of subscribers, fans incoming notifications out, and asks
//! for an unsubscribe call whenever a subscriber leaves.

use crate::error::{Error, ErrorView};
use crate::json::{find_member, items_view, Json, JsonNumber, JsonView, NumberView};
use crate::params::{params_view, Params, ParamsView};
use crate::table::{distinct_keys, has_key, slot_of, with_entry, without_entry};
use vstd::prelude::*;
use vstd::string::StringExecFns;

verus! {

/// The id that the peer gave to a subscription: a number or a string.
#[derive(Debug, PartialEq, Eq, PartialOrd, Ord)]
pub enum SubscriptionId {
    Num(u64),
    String(String),
}

/// The mathematical value of a [`SubscriptionId`].
pub enum SubscriptionIdView {
    Num(u64),
    String(Seq<char>),
}

impl View for SubscriptionId {
    type V = SubscriptionIdView;

    open spec fn view(&self) -> SubscriptionIdView {
        match self {
            SubscriptionId::Num(n) => SubscriptionIdView::Num(*n),
            SubscriptionId::String(s) => SubscriptionIdView::String(s@),
        }
    }
}

impl Clone for SubscriptionId {
    fn clone(&self) -> (r: SubscriptionId)
        ensures
            r@ == self@,
    {
        match self {
            SubscriptionId::Num(n) => SubscriptionId::Num(*n),
            SubscriptionId::String(s) => SubscriptionId::String(s.clone()),
        }
    }
}

/// The subscription id that a value stands for: a non-negative integer or a
/// string.
pub open spec fn subscription_id_of(value: JsonView) -> Option<SubscriptionIdView> {
    match value {
        JsonView::Number(NumberView::PosInt(n)) => Some(SubscriptionIdView::Num(n)),
        JsonView::String(s) => Some(SubscriptionIdView::String(s)),
        _ => None,
    }
}

/// The character of a decimal digit.
pub open spec fn digit_char(digit: nat) -> char {
    if digit == 0 {
        '0'
    } else if digit == 1 {
        '1'
    } else if digit == 2 {
        '2'
    } else if digit == 3 {
        '3'
    } else if digit == 4 {
        '4'
    } else if digit == 5 {
        '5'
    } else if digit == 6 {
        '6'
    } else if digit == 7 {
        '7'
    } else if digit == 8 {
        '8'
    } else {
        '9'
    }
}

/// A number in decimal, without leading zeros.
pub open spec fn decimal(n: nat) -> Seq<char>
    decreases n,
{
    if n < 10 {
        seq![digit_char(n)]
    } else {
        decimal(n / 10).push(digit_char(n % 10))
    }
}

/// A subscription id as text: a number in decimal, a string as it is.
pub open spec fn subscription_id_text(id: SubscriptionIdView) -> Seq<char> {
    match id {
        SubscriptionIdView::Num(n) => decimal(n as nat),
        SubscriptionIdView::String(s) => s,
    }
}

/// The text of one decimal digit.
fn digit_text(digit: u64) -> (r: &'static str)
    requires
        digit < 10,
    ensures
        r@ == seq![digit_char(digit as nat)],
{
    proof {
        reveal_strlit("0");
        reveal_strlit("1");
        reveal_strlit("2");
        reveal_strlit("3");
        reveal_strlit("4");
        reveal_strlit("5");
        reveal_strlit("6");
        reveal_strlit("7");
        reveal_strlit("8");
        reveal_strlit("9");
    }
    let text = if digit == 0 {
        "0"
    } else if digit == 1 {
        "1"
    } else if digit == 2 {
        "2"
    } else if digit == 3 {
        "3"
    } else if digit == 4 {
        "4"
    } else if digit == 5 {
        "5"
    } else if digit == 6 {
        "6"
    } else if digit == 7 {
        "7"
    } else if digit == 8 {
        "8"
    } else {
        "9"
    };
    assert(text@ =~= seq![digit_char(digit as nat)]);
    text
}

/// Writes a number in decimal.
pub fn decimal_text(n: u64) -> (r: String)
    ensures
        r@ == decimal(n as nat),
    decreases n,
{
    if n < 10 {
        digit_text(n).to_owned()
    } else {
        let mut text = decimal_text(n / 10);
        text.append(digit_text(n % 10));
        assert(text@ =~= decimal(n as nat));
        text
    }
}

/// The value that a subscription id is written as.
pub open spec fn subscription_id_value(id: SubscriptionIdView) -> JsonView {
    match id {
        SubscriptionIdView::Num(n) => JsonView::Number(NumberView::PosInt(n)),
        SubscriptionIdView::String(s) => JsonView::String(s),
    }
}

/// What the unsubscribe call of a handler carries.
#[derive(Debug, Clone, Copy, PartialEq, Eq)]
pub enum UnsubscribeParameters {
    /// No parameters: an empty array.
    Empty,
    /// The id of the subscription that ended, as the one parameter.
    SubscriptionId,
}

/// The parameters of the unsubscribe call for a subscriber that left.
pub open spec fn unsubscribe_parameters(
    policy: UnsubscribeParameters,
    id: SubscriptionIdView,
) -> JsonView {
    match policy {
        UnsubscribeParameters::Empty => JsonView::Array(Seq::empty()),
        UnsubscribeParameters::SubscriptionId => JsonView::Array(seq![subscription_id_value(id)]),
    }
}

impl SubscriptionId {
    /// The id as text, for messages to people.
    pub fn to_text(&self) -> (r: String)
        ensures
            r@ == subscription_id_text(self@),
    {
        match self {
            SubscriptionId::Num(n) => decimal_text(*n),
            SubscriptionId::String(s) => s.clone(),
        }
    }

    /// Writes the id as a value.
    pub fn to_json(&self) -> (r: Json)
        ensures
            r@ == subscription_id_value(self@),
    {
        match self {
            SubscriptionId::Num(n) => Json::Number(JsonNumber::PosInt(*n)),
            SubscriptionId::String(s) => Json::String(s.clone()),
        }
    }

    /// Whether two ids are the same.
    pub fn same(&self, other: &SubscriptionId) -> (r: bool)
        ensures
            r == (self@ == other@),
    {
        match (self, other) {
            (SubscriptionId::Num(a), SubscriptionId::Num(b)) => *a == *b,
            (SubscriptionId::String(a), SubscriptionId::String(b)) => *a == *b,
            _ => false,
        }
    }

    /// Reads a subscription id from a value.
    pub fn from_json(value: &Json) -> (r: Option<SubscriptionId>)
        ensures
            match r {
                Some(id) => subscription_id_of(value@) == Some(id@),
                None => subscription_id_of(value@) is None,
            },
    {
        match value {
            Json::Number(JsonNumber::PosInt(n)) => Some(SubscriptionId::Num(*n)),
            Json::String(s) => Some(SubscriptionId::String(s.clone())),
            _ => None,
        }
    }
}

/// One notification of a subscription: the id of the subscription and the
/// item.
#[derive(Debug, PartialEq)]
pub struct SubscriptionMessage {
    pub subscription: SubscriptionId,
    pub result: Json,
}

/// The mathematical value of a [`SubscriptionMessage`].
pub struct SubscriptionMessageView {
    pub subscription: SubscriptionIdView,
    pub result: JsonView,
}

impl View for SubscriptionMessage {
    type V = SubscriptionMessageView;

    open spec fn view(&self) -> SubscriptionMessageView {
        SubscriptionMessageView { subscription: self.subscription@, result: self.result@ }
    }
}

/// The notification that parameters stand for. Named parameters need the
/// members `subscription` and `result`; positional parameters are exactly the
/// two, in that order. The id has to be a subscription id.
pub open spec fn subscription_message_of(params: Option<ParamsView>) -> Option<
    SubscriptionMessageView,
> {
    match params {
        Some(ParamsView::Object(members)) => match (
            find_member(members, "subscription"@),
            find_member(members, "result"@),
        ) {
            (Some(id), Some(result)) => match subscription_id_of(id) {
                Some(subscription) => Some(SubscriptionMessageView { subscription, result }),
                None => None,
            },
            _ => None,
        },
        Some(ParamsView::Array(items)) => if items.len() == 2 {
            match subscription_id_of(items[0]) {
                Some(subscription) => Some(
                    SubscriptionMessageView { subscription, result: items[1] },
                ),
                None => None,
            }
        } else {
            None
        },
        None => None,
    }
}

/// A message to a [`NotificationHandler`]. `S` is the handle through which
/// one local subscriber gets its items.
#[derive(Debug, PartialEq)]
pub enum SubscriberMsg<S> {
    /// A notification arrived.
    NewMessage(SubscriptionMessage),
    /// A subscriber joined.
    NewSubscriber(SubscriptionId, S),
    /// A subscriber left.
    RemoveSubscriber(SubscriptionId),
}

/// Reads the parameters of a notification as a message to the handler.
/// Parameters that are no notification of a subscription give `None`.
pub fn params_to_subscription_message<S>(params: Option<Params>) -> (r: Option<SubscriberMsg<S>>)
    ensures
        match r {
            Some(SubscriberMsg::NewMessage(m)) => subscription_message_of(params_view(params))
                == Some(m@),
            Some(_) => false,
            None => subscription_message_of(params_view(params)) is None,
        },
{
    match params {
        Some(Params::Object(members)) => {
            let id = match Json::find(&members, "subscription") {
                Some(v) => SubscriptionId::from_json(v),
                None => None,
            };
            match (id, Json::find(&members, "result")) {
                (Some(subscription), Some(result)) => Some(
                    SubscriberMsg::NewMessage(
                        SubscriptionMessage { subscription, result: result.clone() },
                    ),
                ),
                _ => None,
            }
        },
        Some(Params::Array(items)) => {
            if items.len() == 2 {
                match SubscriptionId::from_json(&items[0]) {
                    Some(subscription) => Some(
                        SubscriberMsg::NewMessage(
                            SubscriptionMessage { subscription, result: items[1].clone() },
                        ),
                    ),
                    None => None,
                }
            } else {
                None
            }
        },
        None => None,
    }
}

/// Where a handler stands: the answer that it waits for.
#[derive(Debug, Clone, Copy, PartialEq, Eq)]
pub enum HandlerStage {
    /// Between turns: waits for [`HandlerEvent::Wake`].
    Idle,
    /// A side effect is in flight: waits for [`HandlerEvent::Effect`].
    Effect,
    /// Waits for [`HandlerEvent::Message`].
    Messages,
    /// Terminated.
    Finished,
}

/// What the stream of messages had.
#[derive(Debug, PartialEq)]
pub enum MessageOutcome<S> {
    /// One message.
    Item(SubscriberMsg<S>),
    /// The stream of notifications has ended.
    Ended,
    /// Nothing for now.
    NotReady,
}

/// What the driver reports to a handler.
#[derive(Debug, PartialEq)]
pub enum HandlerEvent<S> {
    /// The scheduler polls the handler: a turn begins.
    Wake,
    /// The side effect in flight was polled: whether it has resolved, with or
    /// without success.
    Effect(bool),
    /// The answer to [`HandlerAction::PollMessages`].
    Message(MessageOutcome<S>),
}

/// What a handler asks of its driver.
#[derive(Debug, PartialEq)]
pub enum HandlerAction {
    /// Pull the next message.
    PollMessages,
    /// Poll the side effect in flight again.
    PollEffect,
    /// Start sending `message` to the subscriber `to`, and poll that.
    Deliver { to: SubscriptionId, message: Json },
    /// Start a call of `method` with `parameters`, ignore its result, and
    /// poll that.
    Unsubscribe { method: String, parameters: Json },
    /// Nothing more can be done now.
    Yield,
    /// The handler has terminated.
    Finish,
}

/// The mathematical value of a [`HandlerAction`].
pub enum HandlerActionView {
    PollMessages,
    PollEffect,
    Deliver { to: SubscriptionIdView, message: JsonView },
    Unsubscribe { method: Seq<char>, parameters: JsonView },
    Yield,
    Finish,
}

impl View for HandlerAction {
    type V = HandlerActionView;

    open spec fn view(&self) -> HandlerActionView {
        match self {
            HandlerAction::PollMessages => HandlerActionView::PollMessages,
            HandlerAction::PollEffect => HandlerActionView::PollEffect,
            HandlerAction::Deliver { to, message } => HandlerActionView::Deliver {
                to: to@,
                message: message@,
            },
            HandlerAction::Unsubscribe { method, parameters } => HandlerActionView::Unsubscribe {
                method: method@,
                parameters: parameters@,
            },
            HandlerAction::Yield => HandlerActionView::Yield,
            HandlerAction::Finish => HandlerActionView::Finish,
        }
    }
}

/// The mathematical value of a [`NotificationHandler`].
pub struct HandlerView<S> {
    /// The notification method that the handler serves.
    pub notification_method: Seq<char>,
    /// The method that ends a subscription at the peer.
    pub unsub_method: Seq<char>,
    /// What the call of that method carries.
    pub unsub_parameters: UnsubscribeParameters,
    /// The subscribers, in the order in which they joined.
    pub subscribers: Seq<(SubscriptionIdView, S)>,
    /// Whether a side effect is in flight.
    pub busy: bool,
    /// Whether the last subscriber to leave left the table empty.
    pub should_shut_down: bool,
    /// The answer that the handler waits for.
    pub stage: HandlerStage,
}

impl<S> HandlerView<S> {
    /// The invariant of a handler: no id occurs twice, and no message is
    /// awaited while a side effect is in flight.
    pub open spec fn wf(self) -> bool {
        &&& distinct_keys(self.subscribers)
        &&& self.stage == HandlerStage::Messages ==> !self.busy
    }

    /// The state at a new stage.
    pub open spec fn at(self, stage: HandlerStage) -> HandlerView<S> {
        HandlerView { stage, ..self }
    }
}

/// What a transition of a handler yields.
pub struct HandlerOutcome<S> {
    pub state: HandlerView<S>,
    pub next: HandlerActionView,
}

/// The end of a turn: a handler that should shut down terminates, any other
/// yields.
pub open spec fn conclude<S>(state: HandlerView<S>) -> HandlerOutcome<S> {
    if state.should_shut_down {
        HandlerOutcome { state: state.at(HandlerStage::Finished), next: HandlerActionView::Finish }
    } else {
        HandlerOutcome { state: state.at(HandlerStage::Idle), next: HandlerActionView::Yield }
    }
}

/// The handler asks for the next message.
pub open spec fn pull<S>(state: HandlerView<S>) -> HandlerOutcome<S> {
    HandlerOutcome { state: state.at(HandlerStage::Messages), next: HandlerActionView::PollMessages }
}

/// A notification for a known subscriber is sent to it; one for an unknown
/// subscriber is discarded.
pub open spec fn on_new_message<S>(
    state: HandlerView<S>,
    message: SubscriptionMessageView,
) -> HandlerOutcome<S> {
    if has_key(state.subscribers, message.subscription) {
        HandlerOutcome {
            state: HandlerView { busy: true, ..state }.at(HandlerStage::Effect),
            next: HandlerActionView::Deliver { to: message.subscription, message: message.result },
        }
    } else {
        pull(state)
    }
}

/// A subscriber that leaves is taken from the table, and the unsubscribe
/// method is called with the parameters that the handler was made for. The
/// handler should shut down exactly if the table is then empty.
pub open spec fn on_removal<S>(state: HandlerView<S>, id: SubscriptionIdView) -> HandlerOutcome<S> {
    let rest = without_entry(state.subscribers, id);
    HandlerOutcome {
        state: HandlerView {
            subscribers: rest,
            should_shut_down: rest.len() < 1,
            busy: true,
            ..state
        }.at(HandlerStage::Effect),
        next: HandlerActionView::Unsubscribe {
            method: state.unsub_method,
            parameters: unsubscribe_parameters(state.unsub_parameters, id),
        },
    }
}

/// The transition of a handler on an event. An event that the handler does
/// not wait for changes nothing; a terminated handler says so again.
pub open spec fn handler_expected<S>(state: HandlerView<S>, event: HandlerEvent<S>) -> HandlerOutcome<
    S,
> {
    match (state.stage, event) {
        (HandlerStage::Idle, HandlerEvent::Wake) => if state.busy {
            HandlerOutcome {
                state: state.at(HandlerStage::Effect),
                next: HandlerActionView::PollEffect,
            }
        } else {
            pull(state)
        },
        (HandlerStage::Effect, HandlerEvent::Effect(resolved)) => if !state.busy || resolved {
            pull(HandlerView { busy: false, ..state })
        } else {
            conclude(state)
        },
        (HandlerStage::Messages, HandlerEvent::Message(MessageOutcome::NotReady)) => conclude(
            state,
        ),
        (HandlerStage::Messages, HandlerEvent::Message(MessageOutcome::Ended)) => HandlerOutcome {
            state: state.at(HandlerStage::Finished),
            next: HandlerActionView::Finish,
        },
        (
            HandlerStage::Messages,
            HandlerEvent::Message(MessageOutcome::Item(SubscriberMsg::NewMessage(m))),
        ) => on_new_message(state, m@),
        (
            HandlerStage::Messages,
            HandlerEvent::Message(MessageOutcome::Item(SubscriberMsg::NewSubscriber(id, sender))),
        ) => pull(
            HandlerView { subscribers: with_entry(state.subscribers, id@, sender), ..state },
        ),
        (
            HandlerStage::Messages,
            HandlerEvent::Message(MessageOutcome::Item(SubscriberMsg::RemoveSubscriber(id))),
        ) => on_removal(state, id@),
        (HandlerStage::Finished, _) => HandlerOutcome {
            state,
            next: HandlerActionView::Finish,
        },
        _ => HandlerOutcome { state, next: HandlerActionView::Yield },
    }
}

/// The views of the entries of a table of subscribers.
pub open spec fn entries_view<S>(entries: Vec<(SubscriptionId, S)>) -> Seq<
    (SubscriptionIdView, S),
> {
    Seq::new(entries.len() as nat, |i: int| (entries[i].0@, entries[i].1))
}

/// One task per notification method: fans the notifications of that method
/// out to the local subscribers.
#[derive(Debug)]
pub struct NotificationHandler<S> {
    notification_method: String,
    /// The subscribers by id, in the order in which they joined; no id
    /// occurs twice.
    subscribers: Vec<(SubscriptionId, S)>,
    unsub_method: String,
    unsub_parameters: UnsubscribeParameters,
    current_future: bool,
    should_shut_down: bool,
    stage: HandlerStage,
}

impl<S> View for NotificationHandler<S> {
    type V = HandlerView<S>;

    closed spec fn view(&self) -> HandlerView<S> {
        HandlerView {
            notification_method: self.notification_method@,
            unsub_method: self.unsub_method@,
            unsub_parameters: self.unsub_parameters,
            subscribers: entries_view(self.subscribers),
            busy: self.current_future,
            should_shut_down: self.should_shut_down,
            stage: self.stage,
        }
    }
}

impl<S> NotificationHandler<S> {
    /// A handler for `notification_method` that ends subscriptions with a
    /// call of `unsub_method` without parameters: no subscribers, nothing in
    /// flight, between turns.
    pub fn new(notification_method: String, unsub_method: String) -> (handler: Self)
        ensures
            handler@.wf(),
            handler@ == (HandlerView::<S> {
                notification_method: notification_method@,
                unsub_method: unsub_method@,
                unsub_parameters: UnsubscribeParameters::Empty,
                subscribers: Seq::empty(),
                busy: false,
                should_shut_down: false,
                stage: HandlerStage::Idle,
            }),
    {
        Self::with_parameters(notification_method, unsub_method, UnsubscribeParameters::Empty)
    }

    /// A handler as [`NotificationHandler::new`] makes it, whose unsubscribe
    /// call carries what `unsub_parameters` says.
    pub fn with_parameters(
        notification_method: String,
        unsub_method: String,
        unsub_parameters: UnsubscribeParameters,
    ) -> (handler: Self)
        ensures
            handler@.wf(),
            handler@ == (HandlerView::<S> {
                notification_method: notification_method@,
                unsub_method: unsub_method@,
                unsub_parameters,
                subscribers: Seq::empty(),
                busy: false,
                should_shut_down: false,
                stage: HandlerStage::Idle,
            }),
    {
        let handler = NotificationHandler {
            notification_method,
            subscribers: Vec::new(),
            unsub_method,
            unsub_parameters,
            current_future: false,
            should_shut_down: false,
            stage: HandlerStage::Idle,
        };
        assert(handler@.subscribers =~= Seq::empty());
        handler
    }

    /// The notification method that the handler serves: the route that its
    /// owner takes down when the handler goes away.
    pub fn notification_method(&self) -> (r: &String)
        ensures
            r@ == self@.notification_method,
    {
        &self.notification_method
    }

    /// How many subscribers the handler has.
    pub fn subscriber_count(&self) -> (r: usize)
        ensures
            r == self@.subscribers.len(),
    {
        self.subscribers.len()
    }

    /// Whether the last subscriber to leave left the table empty.
    pub fn should_shut_down(&self) -> (r: bool)
        ensures
            r == self@.should_shut_down,
    {
        self.should_shut_down
    }

    /// Whether a side effect is in flight.
    pub fn is_busy(&self) -> (r: bool)
        ensures
            r == self@.busy,
    {
        self.current_future
    }

    /// The answer that the handler waits for.
    pub fn stage(&self) -> (r: HandlerStage)
        ensures
            r == self@.stage,
    {
        self.stage
    }

    /// The place of a subscriber in the table.
    fn find(&self, id: &SubscriptionId) -> (r: Option<usize>)
        requires
            self@.wf(),
        ensures
            match r {
                Some(i) => has_key(self@.subscribers, id@) && slot_of(
                    self@.subscribers,
                    id@,
                ) == i && i < self.subscribers.len(),
                None => !has_key(self@.subscribers, id@),
            },
    {
        let mut i: usize = 0;
        while i < self.subscribers.len()
            invariant
                self@.wf(),
                i <= self.subscribers.len(),
                forall|k: int| 0 <= k < i ==> (#[trigger] self@.subscribers[k]).0 != id@,
            decreases self.subscribers.len() - i,
        {
            if self.subscribers[i].0.same(id) {
                proof {
                    let entries = self@.subscribers;
                    assert(entries[i as int].0 == id@);
                    assert(has_key(entries, id@));
                    let j = slot_of(entries, id@);
                    assert(entries[j].0 == id@);
                    assert(j == i);
                }
                return Some(i);
            }
            i += 1;
        }
        None
    }

    /// The handle of a subscriber, for the delivery of an item.
    pub fn subscriber(&self, id: &SubscriptionId) -> (r: Option<&S>)
        requires
            self@.wf(),
        ensures
            match r {
                Some(sender) => has_key(self@.subscribers, id@) && *sender
                    == self@.subscribers[slot_of(self@.subscribers, id@)].1,
                None => !has_key(self@.subscribers, id@),
            },
    {
        match self.find(id) {
            Some(i) => Some(&self.subscribers[i].1),
            None => None,
        }
    }

    /// Enters a subscriber into the table: a subscriber with a known id takes
    /// the place of the old one. The subscriber counts only while the handler
    /// waits for a message; at any other stage nothing changes.
    pub fn handle_new_subscription(&mut self, id: SubscriptionId, chan: S)
        requires
            old(self)@.wf(),
        ensures
            final(self)@.wf(),
            final(self)@ == handler_expected(
                old(self)@,
                HandlerEvent::Message(MessageOutcome::Item(SubscriberMsg::NewSubscriber(id, chan))),
            ).state,
    {
        match self.stage {
            HandlerStage::Messages => {},
            _ => {
                return ;
            },
        }
        match self.find(&id) {
            Some(i) => {
                self.subscribers.set(i, (id, chan));
                assert(self@.subscribers =~= with_entry(old(self)@.subscribers, id@, chan));
            },
            None => {
                self.subscribers.push((id, chan));
                assert(self@.subscribers =~= with_entry(old(self)@.subscribers, id@, chan));
            },
        }
    }

    /// Takes a subscriber from the table and asks for the unsubscribe call;
    /// the handler should shut down exactly if the table is then empty. The
    /// removal counts only while the handler waits for a message; at any
    /// other stage nothing changes.
    pub fn handle_removal(&mut self, id: SubscriptionId) -> (next: HandlerAction)
        requires
            old(self)@.wf(),
        ensures
            final(self)@.wf(),
            (HandlerOutcome { state: final(self)@, next: next@ }) == handler_expected(
                old(self)@,
                HandlerEvent::Message(MessageOutcome::Item(SubscriberMsg::RemoveSubscriber(id))),
            ),
    {
        match self.stage {
            HandlerStage::Messages => {},
            HandlerStage::Finished => {
                return HandlerAction::Finish;
            },
            _ => {
                return HandlerAction::Yield;
            },
        }
        match self.find(&id) {
            Some(i) => {
                self.subscribers.remove(i);
                assert(self@.subscribers =~= without_entry(old(self)@.subscribers, id@));
            },
            None => {
                assert(self@.subscribers =~= without_entry(old(self)@.subscribers, id@));
            },
        }
        self.should_shut_down = self.subscribers.len() < 1;
        self.current_future = true;
        self.stage = HandlerStage::Effect;
        let mut items: Vec<Json> = Vec::new();
        match self.unsub_parameters {
            UnsubscribeParameters::Empty => {
                assert(items_view(items) =~= Seq::empty());
            },
            UnsubscribeParameters::SubscriptionId => {
                items.push(id.to_json());
                assert(items_view(items) =~= seq![subscription_id_value(id@)]);
            },
        }
        let parameters = Json::Array(items);
        HandlerAction::Unsubscribe { method: self.unsub_method.clone(), parameters }
    }

    /// Sends a notification on to its subscriber, if the subscriber is known;
    /// a notification for an unknown subscriber is discarded. The
    /// notification counts only while the handler waits for a message, which
    /// it does only while no side effect is in flight; at any other stage
    /// nothing changes.
    pub fn handle_new_message(&mut self, id: SubscriptionId, message: Json) -> (next:
        HandlerAction)
        requires
            old(self)@.wf(),
        ensures
            final(self)@.wf(),
            (HandlerOutcome { state: final(self)@, next: next@ }) == handler_expected(
                old(self)@,
                HandlerEvent::Message(
                    MessageOutcome::Item(
                        SubscriberMsg::NewMessage(
                            (SubscriptionMessage { subscription: id, result: message }),
                        ),
                    ),
                ),
            ),
    {
        match self.stage {
            HandlerStage::Messages => match self.find(&id) {
                Some(_) => {
                    self.current_future = true;
                    self.stage = HandlerStage::Effect;
                    HandlerAction::Deliver { to: id, message }
                },
                None => HandlerAction::PollMessages,
            },
            HandlerStage::Finished => HandlerAction::Finish,
            _ => HandlerAction::Yield,
        }
    }

    /// Whether the next message may be pulled, given whether the side effect
    /// in flight has resolved. A side effect that has resolved is forgotten.
    pub fn ready_for_next_connection(&mut self, resolved: bool) -> (ready: bool)
        requires
            old(self)@.wf(),
        ensures
            final(self)@.wf(),
            ready == (!old(self)@.busy || resolved),
            final(self)@ == (HandlerView { busy: old(self)@.busy && !resolved, ..old(self)@ }),
    {
        if !self.current_future {
            true
        } else if resolved {
            self.current_future = false;
            true
        } else {
            false
        }
    }

    /// Ends a turn.
    fn conclude(&mut self) -> (next: HandlerAction)
        requires
            old(self)@.wf(),
        ensures
            final(self)@.wf(),
            (HandlerOutcome { state: final(self)@, next: next@ }) == conclude(old(self)@),
    {
        if self.should_shut_down {
            self.stage = HandlerStage::Finished;
            HandlerAction::Finish
        } else {
            self.stage = HandlerStage::Idle;
            HandlerAction::Yield
        }
    }

    /// Drives the handler: takes what came of the last action and says what
    /// to do next. The step is the one that [`handler_expected`] gives.
    pub fn poll(&mut self, event: HandlerEvent<S>) -> (next: HandlerAction)
        requires
            old(self)@.wf(),
        ensures
            final(self)@.wf(),
            (HandlerOutcome { state: final(self)@, next: next@ }) == handler_expected(
                old(self)@,
                event,
            ),
    {
        match self.stage {
            HandlerStage::Idle => match event {
                HandlerEvent::Wake => {
                    if self.current_future {
                        self.stage = HandlerStage::Effect;
                        HandlerAction::PollEffect
                    } else {
                        self.stage = HandlerStage::Messages;
                        HandlerAction::PollMessages
                    }
                },
                _ => HandlerAction::Yield,
            },
            HandlerStage::Effect => match event {
                HandlerEvent::Effect(resolved) => {
                    if self.ready_for_next_connection(resolved) {
                        self.stage = HandlerStage::Messages;
                        HandlerAction::PollMessages
                    } else {
                        self.conclude()
                    }
                },
                _ => HandlerAction::Yield,
            },
            HandlerStage::Messages => match event {
                HandlerEvent::Message(MessageOutcome::NotReady) => self.conclude(),
                HandlerEvent::Message(MessageOutcome::Ended) => {
                    self.stage = HandlerStage::Finished;
                    HandlerAction::Finish
                },
                HandlerEvent::Message(MessageOutcome::Item(SubscriberMsg::NewMessage(msg))) => {
                    self.handle_new_message(msg.subscription, msg.result)
                },
                HandlerEvent::Message(
                    MessageOutcome::Item(SubscriberMsg::NewSubscriber(id, chan)),
                ) => {
                    self.handle_new_subscription(id, chan);
                    HandlerAction::PollMessages
                },
                HandlerEvent::Message(MessageOutcome::Item(SubscriberMsg::RemoveSubscriber(id))) => {
                    self.handle_removal(id)
                },
                _ => HandlerAction::Yield,
            },
            HandlerStage::Finished => HandlerAction::Finish,
        }
    }
}

/// What can go wrong when subscribing.
#[derive(Debug, PartialEq)]
pub enum SubscribeError {
    /// The subscribe call failed, or its reply is no subscription id.
    Core(Error),
    /// The route for the notification method could not be set.
    HandlerError,
    /// The handler could not be spawned.
    SpawnError,
}

/// The mathematical value of a [`SubscribeError`].
pub enum SubscribeErrorView {
    Core(ErrorView),
    HandlerError,
    SpawnError,
}

impl View for SubscribeError {
    type V = SubscribeErrorView;

    open spec fn view(&self) -> SubscribeErrorView {
        match self {
            SubscribeError::Core(e) => SubscribeErrorView::Core(e@),
            SubscribeError::HandlerError => SubscribeErrorView::HandlerError,
            SubscribeError::SpawnError => SubscribeErrorView::SpawnError,
        }
    }
}

/// What has to be spawned before a subscribe call can go out: a handler for
/// this notification method, which ends subscriptions with this method.
#[derive(Debug, PartialEq)]
pub struct SpawnRequest {
    pub notification_method: String,
    pub unsub_method: String,
    pub unsub_parameters: UnsubscribeParameters,
}

/// A subscription whose subscribe call is under way.
#[derive(Debug, PartialEq)]
pub struct PendingSubscription {
    /// The notification method whose handler gets the new subscriber.
    pub notification_method: String,
    /// The capacity of the channel to the new subscriber.
    pub buffer_size: usize,
}

/// What a subscribe takes: first a new handler, where the notification method
/// has no live one; then the subscribe call; then the reply, for `pending`.
#[derive(Debug, PartialEq)]
pub struct SubscribePlan {
    pub spawn: Option<SpawnRequest>,
    pub method: String,
    pub parameters: Json,
    pub pending: PendingSubscription,
}

/// The consumer's end of a subscription. While it holds its id it is live;
/// when it lets go of the id, its handler is told that the subscriber left.
#[derive(Debug, PartialEq)]
pub struct Subscription {
    id: Option<SubscriptionId>,
    notification_method: String,
    buffer_size: usize,
}

/// The mathematical value of a [`Subscription`].
pub struct SubscriptionView {
    pub id: Option<SubscriptionIdView>,
    pub notification_method: Seq<char>,
    pub buffer_size: usize,
}

/// What the channel of a subscription had.
#[derive(Debug, PartialEq)]
pub enum ItemOutcome {
    /// One item.
    Item(Json),
    /// The channel has ended.
    Ended,
    /// Nothing for now.
    NotReady,
    /// The channel reported an error.
    Failed,
}

/// What the stream of a subscription yields.
#[derive(Debug, PartialEq)]
pub enum StreamStep {
    /// The next item, to be read as the item type of the subscription.
    Item(Json),
    /// The stream has ended.
    Ended,
    /// Nothing for now.
    NotReady,
}

impl View for Subscription {
    type V = SubscriptionView;

    closed spec fn view(&self) -> SubscriptionView {
        SubscriptionView {
            id: match self.id {
                Some(id) => Some(id@),
                None => None,
            },
            notification_method: self.notification_method@,
            buffer_size: self.buffer_size,
        }
    }
}

impl PendingSubscription {
    /// Takes the reply to the subscribe call. A failed call fails the
    /// subscribe with the error of the call; a reply that is no subscription
    /// id fails it with `DeserializeError`; any other reply gives the live
    /// subscription with that id.
    pub fn complete(self, reply: Result<Json, Error>) -> (r: Result<Subscription, SubscribeError>)
        ensures
            match reply {
                Err(e) => r matches Err(f) && f@ == SubscribeErrorView::Core(e@),
                Ok(value) => match subscription_id_of(value@) {
                    Some(id) => r matches Ok(s) && s@ == (SubscriptionView {
                        id: Some(id),
                        notification_method: self.notification_method@,
                        buffer_size: self.buffer_size,
                    }),
                    None => r matches Err(f) && f@ == SubscribeErrorView::Core(
                        ErrorView::DeserializeError,
                    ),
                },
            },
    {
        match reply {
            Err(e) => Err(SubscribeError::Core(e)),
            Ok(value) => match SubscriptionId::from_json(&value) {
                Some(id) => Ok(
                    Subscription {
                        id: Some(id),
                        notification_method: self.notification_method,
                        buffer_size: self.buffer_size,
                    },
                ),
                None => Err(SubscribeError::Core(Error::DeserializeError)),
            },
        }
    }
}

impl Subscription {
    /// The id of the subscription, while it is live.
    pub fn id(&self) -> (r: Option<SubscriptionId>)
        ensures
            match r {
                Some(id) => self@.id == Some(id@),
                None => self@.id is None,
            },
    {
        match &self.id {
            Some(id) => Some(id.clone()),
            None => None,
        }
    }

    /// The notification method whose handler serves this subscription.
    pub fn notification_method(&self) -> (r: &String)
        ensures
            r@ == self@.notification_method,
    {
        &self.notification_method
    }

    /// The capacity of the channel to this subscriber.
    pub fn buffer_size(&self) -> (r: usize)
        ensures
            r == self@.buffer_size,
    {
        self.buffer_size
    }

    /// The message that tells the handler of the new subscriber and of the
    /// handle through which it gets its items; `None` once the subscription
    /// has let go of its id.
    pub fn announce<S>(&self, sender: S) -> (r: Option<SubscriberMsg<S>>)
        ensures
            match self@.id {
                Some(id) => r matches Some(SubscriberMsg::NewSubscriber(i, s)) && i@ == id && s
                    == sender,
                None => r is None,
            },
    {
        match &self.id {
            Some(id) => Some(SubscriberMsg::NewSubscriber(id.clone(), sender)),
            None => None,
        }
    }

    /// Takes what the channel had. An item is passed on, as are the end of
    /// the channel and its having nothing; an error of the channel is
    /// `Shutdown`.
    pub fn poll(&self, outcome: ItemOutcome) -> (r: Result<StreamStep, Error>)
        ensures
            match outcome {
                ItemOutcome::Item(v) => r == Ok::<StreamStep, Error>(StreamStep::Item(v)),
                ItemOutcome::Ended => r == Ok::<StreamStep, Error>(StreamStep::Ended),
                ItemOutcome::NotReady => r == Ok::<StreamStep, Error>(StreamStep::NotReady),
                ItemOutcome::Failed => r == Err::<StreamStep, Error>(Error::Shutdown),
            },
    {
        match outcome {
            ItemOutcome::Item(v) => Ok(StreamStep::Item(v)),
            ItemOutcome::Ended => Ok(StreamStep::Ended),
            ItemOutcome::NotReady => Ok(StreamStep::NotReady),
            ItemOutcome::Failed => Err(Error::Shutdown),
        }
    }

    /// Lets go of the subscription: the first time this gives the message
    /// that tells the handler that the subscriber left, and after that
    /// nothing.
    pub fn unsubscribe<S>(&mut self) -> (r: Option<SubscriberMsg<S>>)
        ensures
            final(self)@ == (SubscriptionView { id: None, ..old(self)@ }),
            match old(self)@.id {
                Some(id) => r matches Some(SubscriberMsg::RemoveSubscriber(i)) && i@ == id,
                None => r is None,
            },
    {
        match self.id.take() {
            Some(id) => Some(SubscriberMsg::RemoveSubscriber(id)),
            None => None,
        }
    }
}

/// The views of the entries of the table of handlers.
pub open spec fn handlers_view<H>(entries: Vec<(String, H)>) -> Seq<(Seq<char>, H)> {
    Seq::new(entries.len() as nat, |i: int| (entries[i].0@, entries[i].1))
}

/// Creates subscriptions. `H` is the handle through which a handler gets its
/// control messages.
#[derive(Debug)]
pub struct Subscriber<H> {
    /// The control handles by notification method; no method occurs twice.
    notification_handlers: Vec<(String, H)>,
    unsub_parameters: UnsubscribeParameters,
}

/// The mathematical value of a [`Subscriber`].
pub struct SubscriberView<H> {
    /// The control handle of the handler of each notification method that has
    /// one, in the order in which the methods got their first handler.
    pub handlers: Seq<(Seq<char>, H)>,
    /// What the unsubscribe calls of this subscriber's handlers carry.
    pub unsub_parameters: UnsubscribeParameters,
}

impl<H> View for Subscriber<H> {
    type V = SubscriberView<H>;

    closed spec fn view(&self) -> SubscriberView<H> {
        SubscriberView {
            handlers: handlers_view(self.notification_handlers),
            unsub_parameters: self.unsub_parameters,
        }
    }
}

impl<H> Subscriber<H> {
    /// The invariant of a subscriber: no notification method has two handlers.
    pub open spec fn wf(&self) -> bool {
        distinct_keys(self@.handlers)
    }

    /// What the unsubscribe calls of this subscriber's handlers carry.
    pub open spec fn unsub_parameters(&self) -> UnsubscribeParameters {
        self@.unsub_parameters
    }

    /// A subscriber without handlers, whose handlers call the unsubscribe
    /// method without parameters.
    pub fn new() -> (subscriber: Self)
        ensures
            subscriber.wf(),
            subscriber@.handlers == Seq::<(Seq<char>, H)>::empty(),
            subscriber.unsub_parameters() == UnsubscribeParameters::Empty,
    {
        Self::with_unsubscribe_parameters(UnsubscribeParameters::Empty)
    }

    /// A subscriber without handlers, whose handlers call the unsubscribe
    /// method with what `unsub_parameters` says.
    pub fn with_unsubscribe_parameters(unsub_parameters: UnsubscribeParameters) -> (subscriber:
        Self)
        ensures
            subscriber.wf(),
            subscriber@.handlers == Seq::<(Seq<char>, H)>::empty(),
            subscriber.unsub_parameters() == unsub_parameters,
    {
        let subscriber = Subscriber { notification_handlers: Vec::new(), unsub_parameters };
        assert(subscriber@.handlers =~= Seq::empty());
        subscriber
    }

    /// The place of a notification method in the table.
    fn find(&self, notification_method: &String) -> (r: Option<usize>)
        requires
            self.wf(),
        ensures
            match r {
                Some(i) => has_key(self@.handlers, notification_method@) && slot_of(
                    self@.handlers,
                    notification_method@,
                ) == i && i < self.notification_handlers.len(),
                None => !has_key(self@.handlers, notification_method@),
            },
    {
        let mut i: usize = 0;
        while i < self.notification_handlers.len()
            invariant
                self.wf(),
                i <= self.notification_handlers.len(),
                forall|k: int| 0 <= k < i ==> (#[trigger] self@.handlers[k]).0 != notification_method@,
            decreases self.notification_handlers.len() - i,
        {
            if self.notification_handlers[i].0 == *notification_method {
                proof {
                    crate::table::slot_is_unique(self@.handlers, notification_method@, i as int);
                }
                return Some(i);
            }
            i += 1;
        }
        None
    }

    /// The control handle of the handler for a notification method, if one
    /// was spawned. Its owner can tell whether that handler is still live.
    pub fn handler(&self, notification_method: &String) -> (r: Option<&H>)
        requires
            self.wf(),
        ensures
            match r {
                Some(h) => has_key(self@.handlers, notification_method@) && *h == self@.handlers[slot_of(
                    self@.handlers,
                    notification_method@,
                )].1,
                None => !has_key(self@.handlers, notification_method@),
            },
    {
        match self.find(notification_method) {
            Some(i) => Some(&self.notification_handlers[i].1),
            None => None,
        }
    }

    /// Plans a subscription. `live` says whether the handler that
    /// [`Subscriber::handler`] gives for the notification method still takes
    /// messages.
    ///
    /// A handler is spawned exactly if the notification method has none or
    /// the one it has is not live. The subscribe call is `sub_method` with
    /// `sub_parameters`.
    pub fn subscribe(
        &self,
        sub_method: String,
        unsub_method: String,
        notification_method: String,
        buffer_size: usize,
        sub_parameters: Json,
        live: bool,
    ) -> (plan: SubscribePlan)
        requires
            self.wf(),
        ensures
            plan.method == sub_method,
            plan.parameters == sub_parameters,
            plan.pending.notification_method@ == notification_method@,
            plan.pending.buffer_size == buffer_size,
            (has_key(self@.handlers, notification_method@) && live) ==> plan.spawn is None,
            !(has_key(self@.handlers, notification_method@) && live) ==> (plan.spawn matches Some(request)
                && request.notification_method@ == notification_method@ && request.unsub_method
                == unsub_method && request.unsub_parameters == self.unsub_parameters()),
    {
        let reuse = self.find(&notification_method).is_some() && live;
        let spawn = if reuse {
            None
        } else {
            Some(
                SpawnRequest {
                    notification_method: notification_method.clone(),
                    unsub_method,
                    unsub_parameters: self.unsub_parameters,
                },
            )
        };
        SubscribePlan {
            spawn,
            method: sub_method,
            parameters: sub_parameters,
            pending: PendingSubscription { notification_method, buffer_size },
        }
    }

    /// Builds the handler for a spawn request, given whether the route for
    /// its notification method could be set: `HandlerError` if not.
    pub fn spawn_notification_handler<S>(&self, request: &SpawnRequest, route_added: bool) -> (r:
        Result<NotificationHandler<S>, SubscribeError>)
        ensures
            match r {
                Ok(handler) => route_added && handler@.wf() && handler@ == (HandlerView::<S> {
                    notification_method: request.notification_method@,
                    unsub_method: request.unsub_method@,
                    unsub_parameters: request.unsub_parameters,
                    subscribers: Seq::empty(),
                    busy: false,
                    should_shut_down: false,
                    stage: HandlerStage::Idle,
                }),
                Err(e) => !route_added && e@ == SubscribeErrorView::HandlerError,
            },
    {
        if route_added {
            Ok(
                NotificationHandler::with_parameters(
                    request.notification_method.clone(),
                    request.unsub_method.clone(),
                    request.unsub_parameters,
                ),
            )
        } else {
            Err(SubscribeError::HandlerError)
        }
    }

    /// Records the outcome of spawning a handler: `control` is the control
    /// handle of the handler that runs now, or `None` where the executor
    /// refused it. A handler that runs takes the place of any older handler
    /// for its notification method; a refusal is `SpawnError` and changes
    /// nothing.
    pub fn handler_spawned(&mut self, request: SpawnRequest, control: Option<H>) -> (r: Result<
        (),
        SubscribeError,
    >)
        requires
            old(self).wf(),
        ensures
            final(self).wf(),
            match control {
                Some(h) => r is Ok && final(self)@ == (SubscriberView {
                    handlers: with_entry(old(self)@.handlers, request.notification_method@, h),
                    ..old(self)@
                }),
                None => r matches Err(e) && e@ == SubscribeErrorView::SpawnError && final(self)@
                    == old(self)@,
            },
    {
        match control {
            Some(h) => {
                proof {
                    crate::table::with_entry_keeps_distinct(
                        self@.handlers,
                        request.notification_method@,
                        h,
                    );
                }
                match self.find(&request.notification_method) {
                    Some(i) => {
                        self.notification_handlers.set(i, (request.notification_method, h));
                    },
                    None => {
                        self.notification_handlers.push((request.notification_method, h));
                    },
                }
                assert(self@.handlers =~= with_entry(
                    old(self)@.handlers,
                    request.notification_method@,
                    h,
                ));
                Ok(())
            },
            None => Err(SubscribeError::SpawnError),
        }
    }
}

} // verus!
