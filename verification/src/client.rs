//! The client engine: one state machine that multiplexes calls, replies,
//! requests of the peer and shutdown over a single transport.
//!
//! The engine does no input or output. Its driver asks it what to do next
//! ([`Action`]), does that on the transport, the outgoing queue or the server
//! handler, and reports what came of it ([`Event`]). One turn of the driver
//! runs from [`Event::Wake`] to [`Action::Yield`] or [`Action::Finish`].

use crate::codec::{
    call_frame, notification_frame, output_id, output_version, parse_incoming,
    serialize_method_request, serialize_notification_request, Id, IdView, IncomingMessage,
    IncomingView, Output, OutputView, Version,
};
use crate::error::{reply_view, status_view, Error, ErrorView};
use crate::handle::ClientHandle;
use crate::id_generator::IdGenerator;
use crate::json::{Json, JsonView};
use crate::params::{params_view, Params};
use crate::wire::{response_to_text, written};
use std::collections::HashMap;
use vstd::prelude::*;

verus! {

broadcast use vstd::std_specs::hash::group_hash_axioms;

/// A message on its way to the peer. `C` is the handle through which a call
/// gets its reply; `N` is the handle through which a notification learns that
/// it was handed to the transport.
#[derive(Debug, PartialEq)]
pub enum OutgoingMessage<C, N> {
    /// Invoke a method: its name, its parameters, and where the reply goes.
    RpcCall(String, Option<Params>, C),
    /// Send a notification: its name, its parameters, and where the
    /// acknowledgement goes.
    Notification(String, Option<Params>, N),
    /// Send a reply that the server handler produced.
    Response(jsonrpc_core::Response),
}

/// What the sink said to a payload.
#[derive(Debug)]
pub enum SendOutcome {
    /// The sink took the payload.
    Ready,
    /// The sink is not ready and gave the payload back.
    NotReady(String),
    /// The sink reported an error.
    Failed,
}

/// What the server handler said when it was driven.
#[derive(Debug)]
pub enum ServerOutcome {
    /// It has more to do.
    Working,
    /// It expects no further work.
    Finished,
    /// It reported an error.
    Failed(Error),
}

/// What the source had.
#[derive(Debug)]
pub enum SourceOutcome {
    /// One framed payload.
    Item(String),
    /// The source has ended.
    Ended,
    /// Nothing for now.
    NotReady,
    /// The source reported an error.
    Failed,
}

/// What the outgoing queue had.
#[derive(Debug)]
pub enum OutgoingOutcome<C, N> {
    /// One message.
    Message(OutgoingMessage<C, N>),
    /// Every handle is gone.
    Ended,
    /// Nothing for now.
    NotReady,
}

/// What the sink said when it was closed.
#[derive(Debug)]
pub enum CloseOutcome {
    /// The sink is closed.
    Done,
    /// The sink is still closing.
    NotReady,
    /// The sink reported an error.
    Failed,
}

/// What the driver reports to the engine.
#[derive(Debug)]
pub enum Event<C, N> {
    /// The scheduler polls the engine: a turn begins.
    Wake,
    /// The answer to [`Action::StartSend`].
    Sent(SendOutcome),
    /// The answer to [`Action::PollServer`].
    Server(ServerOutcome),
    /// The answer to [`Action::PollSource`].
    Source(SourceOutcome),
    /// The answer to [`Action::ProcessRequest`].
    Processed(Result<(), Error>),
    /// The answer to [`Action::PollOutgoing`].
    Outgoing(OutgoingOutcome<C, N>),
    /// The answer to [`Action::Flush`]: whether the sink flushed without error.
    Flushed(bool),
    /// The answer to [`Action::Close`].
    Closed(CloseOutcome),
}

/// What the engine asks of its driver.
#[derive(Debug, PartialEq)]
pub enum Action {
    /// Push this payload into the sink.
    StartSend(String),
    /// Drive the server handler.
    PollServer,
    /// Pull from the source.
    PollSource,
    /// Hand this request to the server handler.
    ProcessRequest(jsonrpc_core::Request),
    /// Pull from the outgoing queue.
    PollOutgoing,
    /// Flush the sink.
    Flush,
    /// Close the sink.
    Close,
    /// Nothing more can be done now: give control back to the scheduler.
    Yield,
    /// The engine has terminated with this result.
    Finish(Result<(), Error>),
}

/// The mathematical value of an [`Action`].
pub enum ActionView {
    StartSend(Seq<char>),
    PollServer,
    PollSource,
    ProcessRequest(jsonrpc_core::Request),
    PollOutgoing,
    Flush,
    Close,
    Yield,
    Finish(Result<(), ErrorView>),
}

impl View for Action {
    type V = ActionView;

    open spec fn view(&self) -> ActionView {
        match self {
            Action::StartSend(p) => ActionView::StartSend(p@),
            Action::PollServer => ActionView::PollServer,
            Action::PollSource => ActionView::PollSource,
            Action::ProcessRequest(q) => ActionView::ProcessRequest(*q),
            Action::PollOutgoing => ActionView::PollOutgoing,
            Action::Flush => ActionView::Flush,
            Action::Close => ActionView::Close,
            Action::Yield => ActionView::Yield,
            Action::Finish(r) => ActionView::Finish(status_view(*r)),
        }
    }
}

/// Something that the driver hands to a waiting caller.
#[derive(Debug, PartialEq)]
pub enum Delivery<C, N> {
    /// The outcome of a call, for the handle of that call.
    Reply(C, Result<Json, Error>),
    /// Whether a notification was handed to the transport, for the handle of
    /// that notification.
    Sent(N, Result<(), Error>),
}

/// The mathematical value of a [`Delivery`].
pub enum DeliveryView<C, N> {
    Reply(C, Result<JsonView, ErrorView>),
    Sent(N, Result<(), ErrorView>),
}

impl<C, N> View for Delivery<C, N> {
    type V = DeliveryView<C, N>;

    open spec fn view(&self) -> DeliveryView<C, N> {
        match self {
            Delivery::Reply(c, r) => DeliveryView::Reply(*c, reply_view(*r)),
            Delivery::Sent(n, r) => DeliveryView::Sent(*n, status_view(*r)),
        }
    }
}

/// What the engine decided: at most one delivery, which the driver makes
/// first, and the next action.
#[derive(Debug, PartialEq)]
pub struct Step<C, N> {
    pub deliver: Option<Delivery<C, N>>,
    pub next: Action,
}

/// The mathematical value of a [`Step`].
pub struct StepView<C, N> {
    pub deliver: Option<DeliveryView<C, N>>,
    pub next: ActionView,
}

impl<C, N> View for Step<C, N> {
    type V = StepView<C, N>;

    open spec fn view(&self) -> StepView<C, N> {
        StepView {
            deliver: match self.deliver {
                Some(d) => Some(d@),
                None => None,
            },
            next: self.next@,
        }
    }
}

/// Where the engine stands in a turn: the answer that it waits for.
#[derive(Debug, Clone, Copy, PartialEq, Eq)]
pub enum Stage {
    /// Between turns: waits for [`Event::Wake`].
    Idle,
    /// Resuming the parked payload: waits for [`Event::Sent`].
    ResumeSend,
    /// Driving the server handler: waits for [`Event::Server`].
    Server,
    /// Draining the source: waits for [`Event::Source`].
    Source,
    /// A request is with the server handler: waits for [`Event::Processed`].
    Request,
    /// Draining the outgoing queue: waits for [`Event::Outgoing`].
    Outgoing,
    /// A fresh payload is with the sink: waits for [`Event::Sent`].
    Send,
    /// Flushing the sink: waits for [`Event::Flushed`].
    Flush,
    /// Shutting down, draining the source: waits for [`Event::Source`].
    Drain,
    /// Shutting down, a request is with the server handler: waits for
    /// [`Event::Processed`].
    DrainRequest,
    /// Shutting down, closing the sink: waits for [`Event::Closed`].
    Close,
    /// Terminated.
    Finished,
}

/// The mathematical value of the engine.
pub struct ClientView<C> {
    /// How many ids have been given to calls: the ids 1 to `issued`.
    pub issued: nat,
    /// Whether the engine only drains and closes from now on.
    pub shutting_down: bool,
    /// The calls that wait for a reply, by id.
    pub pending: Map<u64, C>,
    /// The payload that the sink gave back, if any.
    pub pending_payload: Option<Seq<char>>,
    /// The error that ended the engine, if any.
    pub fatal_error: Option<ErrorView>,
    /// The answer that the engine waits for.
    pub stage: Stage,
}

impl<C> ClientView<C> {
    /// Whether the engine is past its last working turn: between turns, or
    /// in one of the stages of shutdown.
    pub open spec fn past_work(self) -> bool {
        self.stage == Stage::Idle || self.stage == Stage::Drain || self.stage
            == Stage::DrainRequest || self.stage == Stage::Close || self.stage == Stage::Finished
    }

    /// The invariant of the engine: the table is finite and holds only ids
    /// that were issued; a fatal error implies shutdown, and with a fatal
    /// error the engine is past its last working turn, so that it neither
    /// sends nor pulls a message; no payload is parked while one is with the
    /// sink or while the outgoing queue is drained; and the stages of
    /// shutdown are entered only when shutting down.
    pub open spec fn wf(self) -> bool {
        &&& self.issued <= u64::MAX
        &&& self.pending.dom().finite()
        &&& forall|id: u64| #[trigger] self.pending.contains_key(id) ==> 1 <= id <= self.issued
        &&& self.fatal_error is Some ==> self.shutting_down && self.past_work()
        &&& (self.stage == Stage::ResumeSend || self.stage == Stage::Send || self.stage
            == Stage::Outgoing) ==> self.pending_payload is None
        &&& (self.stage == Stage::Drain || self.stage == Stage::DrainRequest || self.stage
            == Stage::Close || self.stage == Stage::Finished) ==> self.shutting_down
    }

    /// Whether the engine has to shut down rather than work.
    pub open spec fn should_shut_down(self) -> bool {
        self.fatal_error is Some || self.shutting_down
    }

    /// The result with which the engine terminates.
    pub open spec fn result(self) -> Result<(), ErrorView> {
        match self.fatal_error {
            Some(e) => Err(e),
            None => Ok(()),
        }
    }

    /// The state at a new stage.
    pub open spec fn at(self, stage: Stage) -> ClientView<C> {
        ClientView { stage, ..self }
    }

    /// The state after an error surfaced in a turn: `Shutdown` starts a
    /// graceful shutdown, any other error becomes the fatal error unless there
    /// is one already. Either way the engine starts to drain.
    pub open spec fn failed(self, error: ErrorView) -> ClientView<C> {
        if error == ErrorView::Shutdown || self.fatal_error is Some {
            ClientView { shutting_down: true, stage: Stage::Drain, ..self }
        } else {
            ClientView {
                shutting_down: true,
                fatal_error: Some(error),
                stage: Stage::Drain,
                ..self
            }
        }
    }
}

/// What a transition yields: the new state, the delivery and the next action.
pub struct Outcome<C, N> {
    pub state: ClientView<C>,
    pub deliver: Option<DeliveryView<C, N>>,
    pub next: ActionView,
}

/// A transition to a stage with an action and no delivery.
pub open spec fn go<C, N>(state: ClientView<C>, stage: Stage, next: ActionView) -> Outcome<C, N> {
    Outcome { state: state.at(stage), deliver: None, next }
}

/// The transition on an error in a turn: shutdown begins with a drain of the
/// source.
pub open spec fn failing<C, N>(state: ClientView<C>, error: ErrorView) -> Outcome<C, N> {
    Outcome { state: state.failed(error), deliver: None, next: ActionView::PollSource }
}

/// The transition that closes the sink.
pub open spec fn closing<C, N>(state: ClientView<C>) -> Outcome<C, N> {
    go(state, Stage::Close, ActionView::Close)
}

/// The start of a turn. An engine that has to shut down drains the source. A
/// working engine resumes the parked payload if there is one, and drives the
/// server handler otherwise.
pub open spec fn begin<C, N>(state: ClientView<C>) -> Outcome<C, N> {
    if state.should_shut_down() {
        go(state, Stage::Drain, ActionView::PollSource)
    } else {
        match state.pending_payload {
            Some(payload) => go(
                ClientView { pending_payload: None, ..state },
                Stage::ResumeSend,
                ActionView::StartSend(payload),
            ),
            None => go(state, Stage::Server, ActionView::PollServer),
        }
    }
}

/// What the engine does with the sink's answer. With a fatal error nothing is
/// sent: the answer is `TransportError` whatever the sink said. Otherwise a
/// payload that the sink gave back is parked, and an error of the sink is a
/// `TransportError`.
pub open spec fn sent<C>(state: ClientView<C>, outcome: SendOutcome) -> Result<
    ClientView<C>,
    ErrorView,
> {
    if state.fatal_error is Some {
        Err(ErrorView::TransportError)
    } else {
        match outcome {
            SendOutcome::Ready => Ok(state),
            SendOutcome::NotReady(payload) => Ok(
                ClientView { pending_payload: Some(payload@), ..state },
            ),
            SendOutcome::Failed => Err(ErrorView::TransportError),
        }
    }
}

/// After the parked payload was resumed, the server handler is driven. That
/// holds also where the sink gave the payload back: it is parked again, and
/// the turn goes on with the server handler and the source, so that incoming
/// messages are not held up by a sink that is full. Only the outgoing queue is
/// left out of such a turn.
pub open spec fn after_resume<C, N>(state: ClientView<C>, outcome: SendOutcome) -> Outcome<C, N> {
    match sent(state, outcome) {
        Ok(s) => go(s, Stage::Server, ActionView::PollServer),
        Err(e) => failing(state, e),
    }
}

/// After the server handler was driven, the source is drained. A server
/// handler that has finished raises `shutting_down`.
pub open spec fn after_server<C, N>(state: ClientView<C>, outcome: ServerOutcome) -> Outcome<C, N> {
    match outcome {
        ServerOutcome::Working => go(state, Stage::Source, ActionView::PollSource),
        ServerOutcome::Finished => go(
            ClientView { shutting_down: true, ..state },
            Stage::Source,
            ActionView::PollSource,
        ),
        ServerOutcome::Failed(e) => failing(state, e@),
    }
}

/// After the source is drained, the outgoing queue is, unless a payload is
/// parked: then the sink is flushed.
pub open spec fn to_outgoing<C, N>(state: ClientView<C>) -> Outcome<C, N> {
    if state.pending_payload is None {
        go(state, Stage::Outgoing, ActionView::PollOutgoing)
    } else {
        go(state, Stage::Flush, ActionView::Flush)
    }
}

/// What a reply carries for its caller.
pub open spec fn output_reply(output: OutputView) -> Result<JsonView, ErrorView> {
    match output {
        OutputView::Success { result, .. } => Ok(result),
        OutputView::Failure { error, .. } => Err(ErrorView::JsonRpcError(error)),
    }
}

/// Whether a reply answers a call that waits in the table.
pub open spec fn answers<C>(state: ClientView<C>, output: OutputView) -> bool {
    output_id(output) matches IdView::Num(id) && state.pending.contains_key(id)
}

/// Routing a reply of version 2.0: the call with the reply's id leaves the
/// table and gets the reply. A reply with an id that is not in the table
/// changes nothing. `stage` is the stage that goes on draining the source.
pub open spec fn routed<C, N>(state: ClientView<C>, output: OutputView, stage: Stage) -> Outcome<
    C,
    N,
> {
    match output_id(output) {
        IdView::Num(id) if state.pending.contains_key(id) => Outcome {
            state: ClientView { pending: state.pending.remove(id), ..state }.at(stage),
            deliver: Some(DeliveryView::Reply(state.pending[id], output_reply(output))),
            next: ActionView::PollSource,
        },
        _ => go(state, stage, ActionView::PollSource),
    }
}

/// What a working engine does with a payload that was read. A payload that
/// could not be read is an error. A request goes to the server handler. A
/// reply that does not declare version 2.0 is `InvalidVersion`; any other
/// reply is routed.
pub open spec fn dispatch<C, N>(
    state: ClientView<C>,
    incoming: Result<IncomingView, ErrorView>,
) -> Outcome<C, N> {
    match incoming {
        Err(e) => failing(state, e),
        Ok(IncomingView::Request(q)) => go(state, Stage::Request, ActionView::ProcessRequest(q)),
        Ok(IncomingView::Response(o)) => if output_version(o) != Some(Version::V2) {
            failing(state, ErrorView::InvalidVersion)
        } else {
            routed(state, o, Stage::Source)
        },
    }
}

/// What an engine that shuts down does with a payload that was read: the same
/// as a working one, but an error ends the drain and the sink is closed.
pub open spec fn drain_dispatch<C, N>(
    state: ClientView<C>,
    incoming: Result<IncomingView, ErrorView>,
) -> Outcome<C, N> {
    match incoming {
        Err(_) => closing(state),
        Ok(IncomingView::Request(q)) => go(
            state,
            Stage::DrainRequest,
            ActionView::ProcessRequest(q),
        ),
        Ok(IncomingView::Response(o)) => if output_version(o) != Some(Version::V2) {
            closing(state)
        } else {
            routed(state, o, Stage::Drain)
        },
    }
}

/// After the server handler took a request, the source is drained further.
pub open spec fn after_request<C, N>(state: ClientView<C>, status: Result<(), Error>) -> Outcome<
    C,
    N,
> {
    match status {
        Ok(()) => go(state, Stage::Source, ActionView::PollSource),
        Err(e) => failing(state, e@),
    }
}

/// The same while shutting down: an error ends the drain.
pub open spec fn after_drain_request<C, N>(
    state: ClientView<C>,
    status: Result<(), Error>,
) -> Outcome<C, N> {
    match status {
        Ok(()) => go(state, Stage::Drain, ActionView::PollSource),
        Err(_) => closing(state),
    }
}

/// Issuing a call. The call gets the next id. Where its frame has a text, the
/// call enters the table under that id and the text goes to the sink. Where it
/// has none, the caller gets `SerializeError` and nothing goes to the sink.
/// Where no id is left, the caller gets `Shutdown`.
pub open spec fn issue_call<C, N>(
    state: ClientView<C>,
    method: Seq<char>,
    params: Option<Params>,
    completion: C,
) -> Outcome<C, N> {
    if state.issued >= u64::MAX {
        Outcome {
            state,
            deliver: Some(DeliveryView::Reply(completion, Err(ErrorView::Shutdown))),
            next: ActionView::PollOutgoing,
        }
    } else {
        let id = (state.issued + 1) as u64;
        let numbered = ClientView { issued: state.issued + 1, ..state };
        match written(call_frame(id, method, params_view(params))) {
            Some(text) => go(
                ClientView { pending: state.pending.insert(id, completion), ..numbered },
                Stage::Send,
                ActionView::StartSend(text),
            ),
            None => Outcome {
                state: numbered,
                deliver: Some(DeliveryView::Reply(completion, Err(ErrorView::SerializeError))),
                next: ActionView::PollOutgoing,
            },
        }
    }
}

/// Issuing a notification. Where its frame has a text, the sender learns
/// `Ok(())` and the text goes to the sink. Where it has none, the sender gets
/// `SerializeError` and nothing goes to the sink.
pub open spec fn issue_notification<C, N>(
    state: ClientView<C>,
    method: Seq<char>,
    params: Option<Params>,
    completion: N,
) -> Outcome<C, N> {
    match written(notification_frame(method, params_view(params))) {
        Some(text) => Outcome {
            state: state.at(Stage::Send),
            deliver: Some(DeliveryView::Sent(completion, Ok(()))),
            next: ActionView::StartSend(text),
        },
        None => Outcome {
            state,
            deliver: Some(DeliveryView::Sent(completion, Err(ErrorView::SerializeError))),
            next: ActionView::PollOutgoing,
        },
    }
}

/// Sending a reply of the server handler, given the text that the serializer
/// made of it: no text is a `SerializeError` of the engine.
pub open spec fn issue_response<C, N>(state: ClientView<C>, encoded: Option<Seq<char>>) -> Outcome<
    C,
    N,
> {
    match encoded {
        Some(text) => go(state, Stage::Send, ActionView::StartSend(text)),
        None => failing(state, ErrorView::SerializeError),
    }
}

/// After a fresh payload went to the sink: the next message is pulled, unless
/// the sink gave the payload back. Then it is parked and the sink is flushed.
pub open spec fn after_send<C, N>(state: ClientView<C>, outcome: SendOutcome) -> Outcome<C, N> {
    match sent(state, outcome) {
        Ok(s) => if s.pending_payload is None {
            go(s, Stage::Outgoing, ActionView::PollOutgoing)
        } else {
            go(s, Stage::Flush, ActionView::Flush)
        },
        Err(e) => failing(state, e),
    }
}

/// After the flush the turn is over, unless the sink reported an error.
pub open spec fn after_flush<C, N>(state: ClientView<C>, flushed: bool) -> Outcome<C, N> {
    if flushed {
        go(state, Stage::Idle, ActionView::Yield)
    } else {
        failing(state, ErrorView::TransportError)
    }
}

/// After the sink was asked to close: a sink that is still closing ends the
/// turn; otherwise the engine terminates with its result, whether or not the
/// sink reported an error.
pub open spec fn after_close<C, N>(state: ClientView<C>, outcome: CloseOutcome) -> Outcome<C, N> {
    match outcome {
        CloseOutcome::NotReady => go(state, Stage::Idle, ActionView::Yield),
        _ => go(state, Stage::Finished, ActionView::Finish(state.result())),
    }
}

/// The transition on an event that the engine does not wait for: nothing
/// changes and the turn ends. A terminated engine reports its result again.
pub open spec fn ignored<C, N>(state: ClientView<C>) -> Outcome<C, N> {
    if state.stage == Stage::Finished {
        Outcome { state, deliver: None, next: ActionView::Finish(state.result()) }
    } else {
        Outcome { state, deliver: None, next: ActionView::Yield }
    }
}

/// The start of a working turn, at any stage: between turns, an engine that
/// does not have to shut down begins to work; otherwise nothing changes.
pub open spec fn working_turn<C, N>(state: ClientView<C>) -> Outcome<C, N> {
    if state.stage == Stage::Idle && !state.should_shut_down() {
        begin(state)
    } else {
        ignored(state)
    }
}

/// What the engine does with a payload that was read, at any stage: a
/// working engine that drains the source dispatches it, an engine that drains
/// the source while shutting down does so with [`drain_dispatch`], and at any
/// other stage the payload is not awaited and nothing changes.
pub open spec fn on_payload<C, N>(
    state: ClientView<C>,
    incoming: Result<IncomingView, ErrorView>,
) -> Outcome<C, N> {
    if state.stage == Stage::Source {
        dispatch(state, incoming)
    } else if state.stage == Stage::Drain {
        drain_dispatch(state, incoming)
    } else {
        ignored(state)
    }
}

/// What the engine does with the text of a reply of the server handler, at
/// any stage: an engine that drains the outgoing queue sends it, and at any
/// other stage the reply is not awaited and nothing changes.
pub open spec fn on_response<C, N>(state: ClientView<C>, encoded: Option<Seq<char>>) -> Outcome<
    C,
    N,
> {
    if state.stage == Stage::Outgoing {
        issue_response(state, encoded)
    } else {
        ignored(state)
    }
}

/// The transition of the engine on an event. `incoming` is what the payload
/// of the source was read as, and `encoded` is the text that the serializer
/// made of a reply of the server handler; they matter only for the events
/// that carry such a payload or such a reply.
pub open spec fn expected<C, N>(
    state: ClientView<C>,
    event: Event<C, N>,
    incoming: Result<IncomingView, ErrorView>,
    encoded: Option<Seq<char>>,
) -> Outcome<C, N> {
    match (state.stage, event) {
        (Stage::Idle, Event::Wake) => begin(state),
        (Stage::ResumeSend, Event::Sent(outcome)) => after_resume(state, outcome),
        (Stage::Server, Event::Server(outcome)) => after_server(state, outcome),
        (Stage::Source, Event::Source(SourceOutcome::Item(_))) => dispatch(state, incoming),
        (Stage::Source, Event::Source(SourceOutcome::Ended)) => failing(
            state,
            ErrorView::Shutdown,
        ),
        (Stage::Source, Event::Source(SourceOutcome::NotReady)) => to_outgoing(state),
        (Stage::Source, Event::Source(SourceOutcome::Failed)) => failing(
            state,
            ErrorView::TransportError,
        ),
        (Stage::Request, Event::Processed(status)) => after_request(state, status),
        (Stage::Outgoing, Event::Outgoing(OutgoingOutcome::NotReady)) => go(
            state,
            Stage::Flush,
            ActionView::Flush,
        ),
        (Stage::Outgoing, Event::Outgoing(OutgoingOutcome::Ended)) => failing(
            state,
            ErrorView::Shutdown,
        ),
        (
            Stage::Outgoing,
            Event::Outgoing(OutgoingOutcome::Message(OutgoingMessage::RpcCall(method, params, c))),
        ) => issue_call(state, method@, params, c),
        (
            Stage::Outgoing,
            Event::Outgoing(
                OutgoingOutcome::Message(OutgoingMessage::Notification(method, params, n)),
            ),
        ) => issue_notification(state, method@, params, n),
        (
            Stage::Outgoing,
            Event::Outgoing(OutgoingOutcome::Message(OutgoingMessage::Response(_))),
        ) => issue_response(state, encoded),
        (Stage::Send, Event::Sent(outcome)) => after_send(state, outcome),
        (Stage::Flush, Event::Flushed(flushed)) => after_flush(state, flushed),
        (Stage::Drain, Event::Source(SourceOutcome::Item(_))) => drain_dispatch(state, incoming),
        (Stage::Drain, Event::Source(_)) => closing(state),
        (Stage::DrainRequest, Event::Processed(status)) => after_drain_request(state, status),
        (Stage::Close, Event::Closed(outcome)) => after_close(state, outcome),
        _ => ignored(state),
    }
}

/// What a payload was read as, given the action that the engine took on it:
/// the reply that the payload holds; else, where the payload is a JSON text,
/// the request that the action hands to the server handler; else
/// `DeserializeError`.
pub open spec fn read_as(text: Seq<char>, next: ActionView) -> Result<IncomingView, ErrorView> {
    match crate::codec::response_in(text) {
        Some(o) => Ok(IncomingView::Response(o)),
        None => if crate::wire::json_of_text(text) is Some {
            match next {
                ActionView::ProcessRequest(q) => Ok(IncomingView::Request(q)),
                _ => Ok(IncomingView::Request(arbitrary())),
            }
        } else {
            Err(ErrorView::DeserializeError)
        },
    }
}

/// The text that the serializer made of a reply of the server handler, given
/// the action that the engine took on it: the payload that the action sends,
/// or none.
pub open spec fn encoded_as(next: ActionView) -> Option<Seq<char>> {
    match next {
        ActionView::StartSend(text) => Some(text),
        _ => None,
    }
}

/// The payload that an event carries from the source, or the empty text.
pub open spec fn payload_of<C, N>(event: Event<C, N>) -> Seq<char> {
    match event {
        Event::Source(SourceOutcome::Item(text)) => text@,
        _ => Seq::empty(),
    }
}

/// Whether the engine goes from `pre` to `post` with `step` on `event`.
///
/// This is [`expected`], with the payload of the source read as
/// [`read_as`] says and the reply of the server handler written as
/// [`encoded_as`] says. So the step is fixed by the state and the event but
/// for two things that the engine only carries: the request that it hands to
/// the server handler and the text of a reply of the server handler.
pub open spec fn transition<C, N>(
    pre: ClientView<C>,
    event: Event<C, N>,
    post: ClientView<C>,
    step: StepView<C, N>,
) -> bool {
    expected(pre, event, read_as(payload_of(event), step.next), encoded_as(step.next)) == (Outcome {
        state: post,
        deliver: step.deliver,
        next: step.next,
    })
}

/// The view of what a payload was read as.
pub open spec fn incoming_view(incoming: Result<IncomingMessage, Error>) -> Result<
    IncomingView,
    ErrorView,
> {
    match incoming {
        Ok(m) => Ok(m@),
        Err(e) => Err(e@),
    }
}

/// The view of a text that may be absent.
pub open spec fn text_view(text: Option<String>) -> Option<Seq<char>> {
    match text {
        Some(t) => Some(t@),
        None => None,
    }
}

/// The engine.
#[derive(Debug)]
pub struct Client<C> {
    id_generator: IdGenerator,
    shutting_down: bool,
    /// The calls that wait for a reply. The ids that the engine issues are
    /// numbers, so the table is keyed by the number; a reply with any other
    /// id finds no call.
    pending_client_requests: HashMap<u64, C>,
    pending_payload: Option<String>,
    fatal_error: Option<Error>,
    stage: Stage,
}

impl<C> View for Client<C> {
    type V = ClientView<C>;

    closed spec fn view(&self) -> ClientView<C> {
        ClientView {
            issued: self.id_generator.issued(),
            shutting_down: self.shutting_down,
            pending: self.pending_client_requests@,
            pending_payload: text_view(self.pending_payload),
            fatal_error: match self.fatal_error {
                Some(e) => Some(e@),
                None => None,
            },
            stage: self.stage,
        }
    }
}

impl<C> Client<C> {
    /// A new engine and a handle to it: nothing issued, nothing pending,
    /// between turns.
    pub fn new() -> (r: (Client<C>, ClientHandle))
        ensures
            r.0@.wf(),
            r.0@ == (ClientView::<C> {
                issued: 0,
                shutting_down: false,
                pending: Map::empty(),
                pending_payload: None,
                fatal_error: None,
                stage: Stage::Idle,
            }),
    {
        Self::new_with_server()
    }

    /// A new engine for a transport whose peer may call back. The server
    /// handler lives with the driver, so the engine starts as [`Client::new`]
    /// does.
    pub fn with_server() -> (r: (Client<C>, ClientHandle))
        ensures
            r.0@.wf(),
            r.0@ == (ClientView::<C> {
                issued: 0,
                shutting_down: false,
                pending: Map::empty(),
                pending_payload: None,
                fatal_error: None,
                stage: Stage::Idle,
            }),
    {
        Self::new_with_server()
    }

    fn new_with_server() -> (r: (Client<C>, ClientHandle))
        ensures
            r.0@.wf(),
            r.0@ == (ClientView::<C> {
                issued: 0,
                shutting_down: false,
                pending: Map::empty(),
                pending_payload: None,
                fatal_error: None,
                stage: Stage::Idle,
            }),
    {
        let client = Client {
            id_generator: IdGenerator::new(),
            shutting_down: false,
            pending_client_requests: HashMap::new(),
            pending_payload: None,
            fatal_error: None,
            stage: Stage::Idle,
        };
        assert(client@.pending =~= Map::empty());
        (client, ClientHandle::new())
    }

    /// Whether the engine has to shut down rather than work.
    pub fn should_shut_down(&self) -> (r: bool)
        ensures
            r == self@.should_shut_down(),
    {
        self.fatal_error.is_some() || self.shutting_down
    }

    /// Whether the engine only drains and closes from now on.
    pub fn is_shutting_down(&self) -> (r: bool)
        ensures
            r == self@.shutting_down,
    {
        self.shutting_down
    }

    /// The answer that the engine waits for.
    pub fn stage(&self) -> (r: Stage)
        ensures
            r == self@.stage,
    {
        self.stage
    }

    /// How many calls wait for a reply.
    pub fn pending_calls(&self) -> (r: usize)
        ensures
            r == self@.pending.len(),
    {
        self.pending_client_requests.len()
    }

    /// Whether a call with this id waits for a reply.
    pub fn is_pending(&self, id: u64) -> (r: bool)
        ensures
            r == self@.pending.contains_key(id),
    {
        self.pending_client_requests.contains_key(&id)
    }

    /// Whether a payload is parked.
    pub fn has_pending_payload(&self) -> (r: bool)
        ensures
            r == (self@.pending_payload is Some),
    {
        self.pending_payload.is_some()
    }

    /// The error that ended the engine, if any.
    pub fn fatal_error(&self) -> (r: Option<Error>)
        ensures
            match r {
                Some(e) => self@.fatal_error == Some(e@),
                None => self@.fatal_error is None,
            },
    {
        match &self.fatal_error {
            Some(e) => Some(e.clone()),
            None => None,
        }
    }

    /// The result with which the engine terminates.
    fn result(&self) -> (r: Result<(), Error>)
        ensures
            status_view(r) == self@.result(),
    {
        match &self.fatal_error {
            Some(e) => Err(e.clone()),
            None => Ok(()),
        }
    }

    /// Moves to a stage with an action and no delivery.
    fn go<N>(&mut self, stage: Stage, next: Action) -> (step: Step<C, N>)
        ensures
            final(self)@ == old(self)@.at(stage),
            step@ == (StepView::<C, N> { deliver: None, next: next@ }),
    {
        self.stage = stage;
        Step { deliver: None, next }
    }

    /// Records an error of the turn and starts the shutdown.
    fn fail<N>(&mut self, error: Error) -> (step: Step<C, N>)
        ensures
            final(self)@ == old(self)@.failed(error@),
            step@ == (StepView::<C, N> { deliver: None, next: ActionView::PollSource }),
    {
        self.shutting_down = true;
        if !error.is_shutdown() && self.fatal_error.is_none() {
            self.fatal_error = Some(error);
        }
        self.stage = Stage::Drain;
        Step { deliver: None, next: Action::PollSource }
    }

    /// Starts a working turn: resumes the parked payload if there is one, and
    /// drives the server handler otherwise. Where the engine is not between
    /// turns, or has to shut down, nothing changes: see [`working_turn`].
    pub fn handle_messages<N>(&mut self) -> (step: Step<C, N>)
        requires
            old(self)@.wf(),
        ensures
            final(self)@.wf(),
            (Outcome { state: final(self)@, deliver: step@.deliver, next: step@.next })
                == working_turn::<C, N>(old(self)@),
    {
        let idle = match self.stage {
            Stage::Idle => true,
            _ => false,
        };
        if !idle || self.should_shut_down() {
            return self.ignore();
        }
        match self.pending_payload.take() {
            Some(payload) => self.go(Stage::ResumeSend, Action::StartSend(payload)),
            None => self.go(Stage::Server, Action::PollServer),
        }
    }

    /// Takes the sink's answer to a payload: parks the payload that the sink
    /// gave back, and turns an error of the sink into `TransportError`. With a
    /// fatal error the answer is `TransportError` in any case.
    fn send_payload(&mut self, outcome: SendOutcome) -> (r: Result<(), Error>)
        ensures
            match r {
                Ok(()) => sent(old(self)@, outcome) == Ok::<ClientView<C>, ErrorView>(
                    final(self)@,
                ),
                Err(e) => sent(old(self)@, outcome) == Err::<ClientView<C>, ErrorView>(e@)
                    && final(self)@ == old(self)@,
            },
    {
        if self.fatal_error.is_some() {
            return Err(Error::TransportError);
        }
        match outcome {
            SendOutcome::Ready => Ok(()),
            SendOutcome::NotReady(payload) => {
                self.pending_payload = Some(payload);
                Ok(())
            },
            SendOutcome::Failed => Err(Error::TransportError),
        }
    }

    /// Takes the answer of the server handler: a handler that has finished
    /// raises `shutting_down`, and its error is an error of the turn. The
    /// answer counts only while the engine waits for it; at any other stage
    /// nothing changes.
    pub fn poll_server<N>(&mut self, outcome: ServerOutcome) -> (step: Step<C, N>)
        requires
            old(self)@.wf(),
        ensures
            final(self)@.wf(),
            transition(old(self)@, Event::<C, N>::Server(outcome), final(self)@, step@),
    {
        match self.stage {
            Stage::Server => match outcome {
                ServerOutcome::Working => self.go(Stage::Source, Action::PollSource),
                ServerOutcome::Finished => {
                    self.shutting_down = true;
                    self.go(Stage::Source, Action::PollSource)
                },
                ServerOutcome::Failed(e) => self.fail(e),
            },
            _ => self.ignore(),
        }
    }

    /// Hands a value to the handle of a call.
    fn send_rpc_response<N>(completion: C, value: Result<Json, Error>) -> (delivery: Delivery<
        C,
        N,
    >)
        ensures
            delivery@ == DeliveryView::<C, N>::Reply(completion, reply_view(value)),
    {
        Delivery::Reply(completion, value)
    }

    /// Routes a reply of version 2.0 to the call that waits for it, and goes
    /// on draining the source at `stage`.
    fn route<N>(&mut self, output: Output, stage: Stage) -> (step: Step<C, N>)
        requires
            old(self)@.wf(),
        ensures
            (Outcome { state: final(self)@, deliver: step@.deliver, next: step@.next })
                == routed::<C, N>(old(self)@, output@, stage),
    {
        let (id, result) = match output {
            Output::Success { result, id, .. } => (id, Ok(result)),
            Output::Failure { error, id, .. } => (id, Err(Error::JsonRpcError(error))),
        };
        self.stage = stage;
        match id {
            Id::Num(n) => match self.pending_client_requests.remove(&n) {
                Some(completion) => {
                    assert(self@.pending =~= old(self)@.pending.remove(n));
                    Step {
                        deliver: Some(Self::send_rpc_response(completion, result)),
                        next: Action::PollSource,
                    }
                },
                None => {
                    assert(self@.pending =~= old(self)@.pending);
                    Step { deliver: None, next: Action::PollSource }
                },
            },
            _ => Step { deliver: None, next: Action::PollSource },
        }
    }

    /// Handles a reply of the peer. A reply that does not declare version 2.0
    /// is `InvalidVersion`, whatever its id and before any call is looked up.
    /// Any other reply goes to the call that waits under its id; a reply
    /// with an id under which no call waits changes nothing. The reply counts
    /// only while the engine drains the source: see [`on_payload`].
    pub fn handle_response<N>(&mut self, output: Output) -> (step: Step<C, N>)
        requires
            old(self)@.wf(),
        ensures
            final(self)@.wf(),
            (Outcome { state: final(self)@, deliver: step@.deliver, next: step@.next })
                == on_payload::<C, N>(
                old(self)@,
                Ok::<IncomingView, ErrorView>(IncomingView::Response(output@)),
            ),
    {
        let draining = match self.stage {
            Stage::Source => false,
            Stage::Drain => true,
            _ => {
                return self.ignore();
            },
        };
        let version = output.version();
        proof {
            if let Some(v) = version {
                match v {
                    Version::V2 => {},
                }
            }
        }
        if version.is_none() {
            if draining {
                self.go(Stage::Close, Action::Close)
            } else {
                self.fail(Error::InvalidVersion)
            }
        } else if draining {
            self.route(output, Stage::Drain)
        } else {
            self.route(output, Stage::Source)
        }
    }

    /// The step for an event that the engine does not wait for.
    fn ignore<N>(&self) -> (step: Step<C, N>)
        ensures
            (Outcome { state: self@, deliver: step@.deliver, next: step@.next }) == ignored::<C, N>(
                self@,
            ),
    {
        match self.stage {
            Stage::Finished => Step { deliver: None, next: Action::Finish(self.result()) },
            _ => Step { deliver: None, next: Action::Yield },
        }
    }

    /// Decides what to do with a payload that was read: see [`on_payload`].
    /// The payload counts only while the engine drains the source.
    pub fn dispatch<N>(&mut self, incoming: Result<IncomingMessage, Error>) -> (step: Step<C, N>)
        requires
            old(self)@.wf(),
        ensures
            final(self)@.wf(),
            (Outcome { state: final(self)@, deliver: step@.deliver, next: step@.next })
                == on_payload::<C, N>(old(self)@, incoming_view(incoming)),
    {
        let draining = match self.stage {
            Stage::Source => false,
            Stage::Drain => true,
            _ => {
                return self.ignore();
            },
        };
        match incoming {
            Err(e) => {
                if draining {
                    self.go(Stage::Close, Action::Close)
                } else {
                    self.fail(e)
                }
            },
            Ok(IncomingMessage::Request(q)) => {
                if draining {
                    self.go(Stage::DrainRequest, Action::ProcessRequest(q))
                } else {
                    self.go(Stage::Request, Action::ProcessRequest(q))
                }
            },
            Ok(IncomingMessage::Response(output)) => self.handle_response(output),
        }
    }

    /// Reads a payload of the source and decides what to do with it: see
    /// [`on_payload`], with the payload read as [`read_as`] says.
    pub fn handle_transport_rx_payload<N>(&mut self, payload: &str) -> (step: Step<C, N>)
        requires
            old(self)@.wf(),
        ensures
            final(self)@.wf(),
            (Outcome { state: final(self)@, deliver: step@.deliver, next: step@.next })
                == on_payload::<C, N>(old(self)@, read_as(payload@, step@.next)),
    {
        let incoming = parse_incoming(payload);
        self.dispatch(incoming)
    }

    /// Takes what the source had. A payload is read and dispatched. For a
    /// working engine an ended source is `Shutdown`, an error of the source is
    /// `TransportError`, and with nothing to read the engine moves on to the
    /// outgoing queue, or to the flush where a payload is parked. For an
    /// engine that drains while shutting down, anything but a payload ends
    /// the drain. At any other stage nothing changes.
    pub fn poll_transport_rx<N>(&mut self, outcome: SourceOutcome) -> (step: Step<C, N>)
        requires
            old(self)@.wf(),
        ensures
            final(self)@.wf(),
            transition(old(self)@, Event::<C, N>::Source(outcome), final(self)@, step@),
    {
        match self.stage {
            Stage::Source => match outcome {
                SourceOutcome::Item(payload) => self.handle_transport_rx_payload(payload.as_str()),
                SourceOutcome::Ended => self.fail(Error::Shutdown),
                SourceOutcome::NotReady => {
                    if self.pending_payload.is_none() {
                        self.go(Stage::Outgoing, Action::PollOutgoing)
                    } else {
                        self.go(Stage::Flush, Action::Flush)
                    }
                },
                SourceOutcome::Failed => self.fail(Error::TransportError),
            },
            Stage::Drain => match outcome {
                SourceOutcome::Item(payload) => self.handle_transport_rx_payload(payload.as_str()),
                _ => self.go(Stage::Close, Action::Close),
            },
            _ => self.ignore(),
        }
    }

    /// Enters a call into the table under a fresh id.
    fn add_new_call(&mut self, id: u64, completion: C)
        requires
            old(self)@.wf(),
            id <= old(self)@.issued,
            1 <= id,
            !old(self)@.pending.contains_key(id),
        ensures
            final(self)@.wf(),
            final(self)@ == (ClientView {
                pending: old(self)@.pending.insert(id, completion),
                ..old(self)@
            }),
    {
        self.pending_client_requests.insert(id, completion);
    }

    /// Decides what to do with the text that the serializer made of a reply
    /// of the server handler: see [`on_response`]. The reply counts only
    /// while the engine drains the outgoing queue.
    pub fn send_response<N>(&mut self, encoded: Option<String>) -> (step: Step<C, N>)
        requires
            old(self)@.wf(),
        ensures
            final(self)@.wf(),
            (Outcome { state: final(self)@, deliver: step@.deliver, next: step@.next })
                == on_response::<C, N>(old(self)@, text_view(encoded)),
    {
        match self.stage {
            Stage::Outgoing => match encoded {
                Some(payload) => self.go(Stage::Send, Action::StartSend(payload)),
                None => self.fail(Error::SerializeError),
            },
            _ => self.ignore(),
        }
    }

    /// Handles one message of the outgoing queue: a call gets an id, enters
    /// the table and goes to the sink; a notification is acknowledged and goes
    /// to the sink; a reply of the server handler goes to the sink. A message
    /// counts only while the engine drains the outgoing queue; at any other
    /// stage it is not taken and nothing changes.
    pub fn handle_client_payload<N>(&mut self, message: OutgoingMessage<C, N>) -> (step: Step<
        C,
        N,
    >)
        requires
            old(self)@.wf(),
        ensures
            final(self)@.wf(),
            transition(
                old(self)@,
                Event::Outgoing(OutgoingOutcome::Message(message)),
                final(self)@,
                step@,
            ),
    {
        match self.stage {
            Stage::Outgoing => {},
            _ => {
                return self.ignore();
            },
        }
        match message {
            OutgoingMessage::RpcCall(method, parameters, completion) => {
                match self.id_generator.next() {
                    Some(new_id) => {
                        match serialize_method_request(new_id, method, &parameters) {
                            Ok(payload) => {
                                self.add_new_call(new_id, completion);
                                self.go(Stage::Send, Action::StartSend(payload))
                            },
                            Err(e) => Step {
                                deliver: Some(Self::send_rpc_response(completion, Err(e))),
                                next: Action::PollOutgoing,
                            },
                        }
                    },
                    None => Step {
                        deliver: Some(Self::send_rpc_response(completion, Err(Error::Shutdown))),
                        next: Action::PollOutgoing,
                    },
                }
            },
            OutgoingMessage::Notification(method, parameters, completion) => {
                match serialize_notification_request(method, &parameters) {
                    Ok(payload) => {
                        self.stage = Stage::Send;
                        Step {
                            deliver: Some(Delivery::Sent(completion, Ok(()))),
                            next: Action::StartSend(payload),
                        }
                    },
                    Err(e) => Step {
                        deliver: Some(Delivery::Sent(completion, Err(e))),
                        next: Action::PollOutgoing,
                    },
                }
            },
            OutgoingMessage::Response(response) => {
                let encoded = response_to_text(&response);
                self.send_response(encoded)
            },
        }
    }

    /// Takes what the outgoing queue had: a message is handled; an ended
    /// queue is `Shutdown`; with nothing to send the sink is flushed. The
    /// queue counts only while the engine drains it, which it does only while
    /// no payload is parked; at any other stage nothing changes.
    pub fn poll_outgoing_messages<N>(&mut self, outcome: OutgoingOutcome<C, N>) -> (step: Step<
        C,
        N,
    >)
        requires
            old(self)@.wf(),
        ensures
            final(self)@.wf(),
            transition(old(self)@, Event::Outgoing(outcome), final(self)@, step@),
    {
        match self.stage {
            Stage::Outgoing => match outcome {
                OutgoingOutcome::NotReady => self.go(Stage::Flush, Action::Flush),
                OutgoingOutcome::Message(call) => self.handle_client_payload(call),
                OutgoingOutcome::Ended => self.fail(Error::Shutdown),
            },
            _ => self.ignore(),
        }
    }

    /// Takes the answer of the sink to the flush: an error is
    /// `TransportError`, and otherwise the turn is over. The answer counts
    /// only while the engine waits for it; at any other stage nothing
    /// changes.
    pub fn poll_transport_tx<N>(&mut self, flushed: bool) -> (step: Step<C, N>)
        requires
            old(self)@.wf(),
        ensures
            final(self)@.wf(),
            transition(old(self)@, Event::<C, N>::Flushed(flushed), final(self)@, step@),
    {
        match self.stage {
            Stage::Flush => {
                if flushed {
                    self.go(Stage::Idle, Action::Yield)
                } else {
                    self.fail(Error::TransportError)
                }
            },
            _ => self.ignore(),
        }
    }

    /// Runs the shutdown: drains the source as far as it goes, then closes the
    /// sink, then terminates with the fatal error or with `Ok(())`. In a
    /// stage of the shutdown the step is the one that [`transition`]
    /// describes; in any other stage nothing changes.
    pub fn handle_shutdown<N>(&mut self, event: Event<C, N>) -> (step: Step<C, N>)
        requires
            old(self)@.wf(),
        ensures
            final(self)@.wf(),
            (old(self)@.stage == Stage::Drain || old(self)@.stage == Stage::DrainRequest || old(
                self,
            )@.stage == Stage::Close || old(self)@.stage == Stage::Finished) ==> transition(
                old(self)@,
                event,
                final(self)@,
                step@,
            ),
            !(old(self)@.stage == Stage::Drain || old(self)@.stage == Stage::DrainRequest || old(
                self,
            )@.stage == Stage::Close || old(self)@.stage == Stage::Finished) ==> (Outcome {
                state: final(self)@,
                deliver: step@.deliver,
                next: step@.next,
            }) == ignored::<C, N>(old(self)@),
    {
        match (self.stage, event) {
            (Stage::Drain, Event::Source(outcome)) => self.poll_transport_rx(outcome),
            (Stage::DrainRequest, Event::Processed(Ok(()))) => self.go(
                Stage::Drain,
                Action::PollSource,
            ),
            (Stage::DrainRequest, Event::Processed(Err(_))) => self.go(Stage::Close, Action::Close),
            (Stage::Close, Event::Closed(CloseOutcome::NotReady)) => self.go(
                Stage::Idle,
                Action::Yield,
            ),
            (Stage::Close, Event::Closed(_)) => {
                let result = self.result();
                self.go(Stage::Finished, Action::Finish(result))
            },
            _ => self.ignore(),
        }
    }

    /// Drives the engine: takes what came of the last action and says what to
    /// do next.
    ///
    /// The step is the one that [`transition`] describes. An event that the
    /// engine does not wait for changes nothing.
    pub fn poll<N>(&mut self, event: Event<C, N>) -> (step: Step<C, N>)
        requires
            old(self)@.wf(),
        ensures
            final(self)@.wf(),
            transition(old(self)@, event, final(self)@, step@),
    {
        match self.stage {
            Stage::Idle => match event {
                Event::Wake => {
                    if self.should_shut_down() {
                        self.go(Stage::Drain, Action::PollSource)
                    } else {
                        self.handle_messages()
                    }
                },
                _ => Step { deliver: None, next: Action::Yield },
            },
            Stage::ResumeSend => match event {
                Event::Sent(outcome) => match self.send_payload(outcome) {
                    Ok(()) => self.go(Stage::Server, Action::PollServer),
                    Err(e) => self.fail(e),
                },
                _ => Step { deliver: None, next: Action::Yield },
            },
            Stage::Server => match event {
                Event::Server(outcome) => self.poll_server(outcome),
                _ => Step { deliver: None, next: Action::Yield },
            },
            Stage::Source => match event {
                Event::Source(outcome) => self.poll_transport_rx(outcome),
                _ => Step { deliver: None, next: Action::Yield },
            },
            Stage::Request => match event {
                Event::Processed(Ok(())) => self.go(Stage::Source, Action::PollSource),
                Event::Processed(Err(e)) => self.fail(e),
                _ => Step { deliver: None, next: Action::Yield },
            },
            Stage::Outgoing => match event {
                Event::Outgoing(outcome) => self.poll_outgoing_messages(outcome),
                _ => Step { deliver: None, next: Action::Yield },
            },
            Stage::Send => match event {
                Event::Sent(outcome) => match self.send_payload(outcome) {
                    Ok(()) => {
                        if self.pending_payload.is_none() {
                            self.go(Stage::Outgoing, Action::PollOutgoing)
                        } else {
                            self.go(Stage::Flush, Action::Flush)
                        }
                    },
                    Err(e) => self.fail(e),
                },
                _ => Step { deliver: None, next: Action::Yield },
            },
            Stage::Flush => match event {
                Event::Flushed(flushed) => self.poll_transport_tx(flushed),
                _ => Step { deliver: None, next: Action::Yield },
            },
            Stage::Drain | Stage::DrainRequest | Stage::Close => self.handle_shutdown(event),
            Stage::Finished => Step { deliver: None, next: Action::Finish(self.result()) },
        }
    }
}

} // verus!
