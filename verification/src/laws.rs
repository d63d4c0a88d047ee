//! What holds of the engine, the codec and the notification handler over all
//! their inputs.

use crate::client::{
    expected, ActionView, ClientView, DeliveryView, Event, OutgoingMessage, OutgoingOutcome,
    SourceOutcome, Stage,
};
use crate::codec::{
    call_frame, notification_frame, output_id, output_of, output_version, request_members,
    IdView, IncomingView, OutputView, Version,
};
use crate::error::ErrorView;
use crate::json::{find_member, JsonView};
use crate::params::{Params, ParamsView};
use crate::pubsub::{
    handler_expected, HandlerActionView, HandlerEvent, HandlerStage, HandlerView,
    MessageOutcome, SubscriberMsg,
};
use crate::table::{has_key, without_entry, without_entry_drops_key};
use vstd::prelude::*;

verus! {

/// Every transition keeps the invariant of the engine, for every reading of
/// the payload and every text of a reply of the server handler.
pub proof fn engine_stays_well_formed<C, N>(
    pre: ClientView<C>,
    event: Event<C, N>,
    incoming: Result<IncomingView, ErrorView>,
    encoded: Option<Seq<char>>,
)
    requires
        pre.wf(),
    ensures
        expected(pre, event, incoming, encoded).state.wf(),
{
    let out = expected(pre, event, incoming, encoded);
    assert(out.state.pending.dom().finite());
    assert forall|id: u64| #[trigger] out.state.pending.contains_key(id) implies 1 <= id
        <= out.state.issued by {
        if !pre.pending.contains_key(id) {
            assert(id == pre.issued + 1);
        }
    }
}

/// The fatal error is set at most once: no transition changes or clears a
/// fatal error that is there, and a fatal error is never without
/// `shutting_down`.
pub proof fn fatal_error_is_set_once<C, N>(
    pre: ClientView<C>,
    event: Event<C, N>,
    incoming: Result<IncomingView, ErrorView>,
    encoded: Option<Seq<char>>,
)
    requires
        pre.wf(),
    ensures
        ({
            let out = expected(pre, event, incoming, encoded);
            &&& pre.fatal_error is Some ==> out.state.fatal_error == pre.fatal_error
            &&& pre.shutting_down ==> out.state.shutting_down
            &&& out.state.fatal_error is Some ==> out.state.shutting_down
        }),
{
}

/// With a fatal error the engine sends nothing and pulls no message: no
/// transition from a state with a fatal error asks for a payload to be sent,
/// for the outgoing queue, for the server handler or for a flush, and the
/// engine stays past its last working turn.
pub proof fn nothing_is_sent_after_a_fatal_error<C, N>(
    pre: ClientView<C>,
    event: Event<C, N>,
    incoming: Result<IncomingView, ErrorView>,
    encoded: Option<Seq<char>>,
)
    requires
        pre.wf(),
        pre.fatal_error is Some,
    ensures
        ({
            let out = expected(pre, event, incoming, encoded);
            &&& !(out.next is StartSend)
            &&& out.next != ActionView::PollOutgoing
            &&& out.next != ActionView::PollServer
            &&& out.next != ActionView::Flush
            &&& out.state.past_work()
            &&& out.state.pending_payload == pre.pending_payload
        }),
        ({
            let out = crate::client::on_payload::<C, N>(pre, incoming);
            !(out.next is StartSend) && out.state.past_work() && out.state.fatal_error
                == pre.fatal_error
        }),
        ({
            let out = crate::client::on_response::<C, N>(pre, encoded);
            !(out.next is StartSend) && out.state == pre
        }),
{
}

/// A terminated engine stays terminated: whatever it is told, it changes
/// nothing and reports its result again.
pub proof fn terminated_engine_stays_terminated<C, N>(
    pre: ClientView<C>,
    event: Event<C, N>,
    incoming: Result<IncomingView, ErrorView>,
    encoded: Option<Seq<char>>,
)
    requires
        pre.wf(),
        pre.stage == Stage::Finished,
    ensures
        expected(pre, event, incoming, encoded).state == pre,
        expected(pre, event, incoming, encoded).next == ActionView::Finish(pre.result()),
        crate::client::on_payload::<C, N>(pre, incoming).state == pre,
        crate::client::on_response::<C, N>(pre, encoded).state == pre,
{
}

/// A call gets exactly one outcome when it is issued: either its caller is
/// told at once that the call failed, and the call never enters the table;
/// or the call enters the table under an id that no call before it had, its
/// frame goes to the sink, and nothing is delivered yet.
pub proof fn issued_call_fails_at_once_or_waits<C, N>(
    pre: ClientView<C>,
    method: String,
    params: Option<Params>,
    completion: C,
    incoming: Result<IncomingView, ErrorView>,
    encoded: Option<Seq<char>>,
)
    requires
        pre.wf(),
        pre.stage == Stage::Outgoing,
    ensures
        ({
            let out = expected::<C, N>(
                pre,
                Event::Outgoing(
                    OutgoingOutcome::Message(OutgoingMessage::RpcCall(method, params, completion)),
                ),
                incoming,
                encoded,
            );
            let id = (pre.issued + 1) as u64;
            let failed = out.deliver matches Some(DeliveryView::Reply(c, Err(_))) && c
                == completion && out.state.pending == pre.pending && out.next
                == ActionView::PollOutgoing;
            let waits = out.deliver is None && pre.issued < u64::MAX && !pre.pending.contains_key(id)
                && out.state.pending == pre.pending.insert(id, completion) && out.state.issued
                == id && out.next == ActionView::StartSend(
                crate::wire::written(call_frame(id, method@, crate::params::params_view(params)))->0,
            );
            (failed || waits) && !(failed && waits)
        }),
{
    let id = (pre.issued + 1) as u64;
    if pre.pending.contains_key(id) {
        assert(id <= pre.issued);
    }
}

/// A call that waits in the table leaves it only with its reply: after any
/// transition the call is still there, unchanged, or it is gone and its
/// handle is the one that the step delivers a reply to.
pub proof fn waiting_call_leaves_only_with_its_reply<C, N>(
    pre: ClientView<C>,
    event: Event<C, N>,
    incoming: Result<IncomingView, ErrorView>,
    encoded: Option<Seq<char>>,
    id: u64,
)
    requires
        pre.wf(),
        pre.pending.contains_key(id),
    ensures
        ({
            let out = expected(pre, event, incoming, encoded);
            let stays = out.state.pending.contains_key(id) && out.state.pending[id]
                == pre.pending[id];
            let answered = !out.state.pending.contains_key(id) && (out.deliver matches Some(
                DeliveryView::Reply(c, _),
            ) && c == pre.pending[id]);
            (stays || answered) && !(stays && answered)
        }),
{
    let next_id = (pre.issued + 1) as u64;
    assert(id != next_id || pre.issued >= u64::MAX) by {
        if id == next_id && pre.issued < u64::MAX {
            assert(id <= pre.issued);
        }
    }
}

/// The count of ids only grows, and a call that enters the table does so
/// under the id that follows the count. So no two calls get the same id.
pub proof fn ids_only_grow<C, N>(
    pre: ClientView<C>,
    event: Event<C, N>,
    incoming: Result<IncomingView, ErrorView>,
    encoded: Option<Seq<char>>,
)
    requires
        pre.wf(),
    ensures
        ({
            let out = expected(pre, event, incoming, encoded);
            &&& pre.issued <= out.state.issued <= pre.issued + 1
            &&& forall|id: u64|
                #[trigger] out.state.pending.contains_key(id) && !pre.pending.contains_key(id)
                    ==> id == pre.issued + 1 && out.state.issued == id
        }),
{
}

/// A reply of version 2.0 is routed by its id. Where a call with that id
/// waits, that call and no other leaves the table and gets what the reply
/// carries. Where none waits, the table stays as it is and nothing is
/// delivered.
pub proof fn reply_is_routed_by_id<C, N>(
    pre: ClientView<C>,
    text: String,
    output: OutputView,
    encoded: Option<Seq<char>>,
)
    requires
        pre.wf(),
        pre.stage == Stage::Source || pre.stage == Stage::Drain,
        output_version(output) == Some(Version::V2),
    ensures
        ({
            let out = expected::<C, N>(
                pre,
                Event::Source(SourceOutcome::Item(text)),
                Ok(IncomingView::Response(output)),
                encoded,
            );
            match output_id(output) {
                IdView::Num(id) if pre.pending.contains_key(id) => {
                    &&& out.deliver == Some(
                        DeliveryView::<C, N>::Reply(
                            pre.pending[id],
                            crate::client::output_reply(output),
                        ),
                    )
                    &&& out.state.pending == pre.pending.remove(id)
                    &&& forall|other: u64|
                        other != id && #[trigger] pre.pending.contains_key(other)
                            ==> out.state.pending.contains_key(other) && out.state.pending[other]
                            == pre.pending[other]
                },
                _ => out.deliver is None && out.state.pending == pre.pending,
            }
        }),
{
}

/// Whether a transition enters a call into the table.
pub open spec fn registers_call<C, N>(pre: ClientView<C>, event: Event<C, N>) -> bool {
    &&& pre.stage == Stage::Outgoing
    &&& pre.issued < u64::MAX
    &&& event matches Event::Outgoing(
        OutgoingOutcome::Message(OutgoingMessage::RpcCall(method, params, _)),
    ) && crate::wire::written(
        call_frame((pre.issued + 1) as u64, method@, crate::params::params_view(params)),
    ) is Some
}

/// Whether a transition delivers the reply to a call that waits in the table.
pub open spec fn resolves_call<C, N>(
    pre: ClientView<C>,
    event: Event<C, N>,
    incoming: Result<IncomingView, ErrorView>,
) -> bool {
    &&& pre.stage == Stage::Source || pre.stage == Stage::Drain
    &&& event matches Event::Source(SourceOutcome::Item(_))
    &&& incoming matches Ok(IncomingView::Response(o)) && output_version(o) == Some(Version::V2)
        && crate::client::answers(pre, o)
}

/// The table counts the calls that wait: a transition that enters a call
/// adds one entry, a transition that delivers the reply to a waiting call
/// takes one away, and no other transition changes the count.
pub proof fn table_counts_waiting_calls<C, N>(
    pre: ClientView<C>,
    event: Event<C, N>,
    incoming: Result<IncomingView, ErrorView>,
    encoded: Option<Seq<char>>,
)
    requires
        pre.wf(),
    ensures
        ({
            let out = expected(pre, event, incoming, encoded);
            let entered: int = if registers_call(pre, event) {
                1
            } else {
                0
            };
            let left: int = if resolves_call(pre, event, incoming) {
                1
            } else {
                0
            };
            out.state.pending.len() == pre.pending.len() + entered - left
        }),
{
    let out = expected(pre, event, incoming, encoded);
    if registers_call(pre, event) {
        let id = (pre.issued + 1) as u64;
        if pre.pending.contains_key(id) {
            assert(id <= pre.issued);
        }
    }
}

/// When the last handle is gone, the engine ends in `Ok(())`: unless an error
/// ended it before, the end of the outgoing queue starts a shutdown without a
/// fatal error; no transition of a shutdown sets a fatal error or leaves the
/// shutdown; and once the sink is closed, with or without an error of the
/// sink, the engine terminates with its result, which is `Ok(())` where there
/// is no fatal error.
pub proof fn last_handle_gone_ends_in_ok<C, N>(
    pre: ClientView<C>,
    event: Event<C, N>,
    incoming: Result<IncomingView, ErrorView>,
    encoded: Option<Seq<char>>,
)
    requires
        pre.wf(),
    ensures
        ({
            let out = expected(pre, event, incoming, encoded);
            &&& (pre.stage == Stage::Outgoing && (event matches Event::Outgoing(
                OutgoingOutcome::Ended,
            ))) ==> out.state.shutting_down && out.state.fatal_error == pre.fatal_error
                && out.state.stage == Stage::Drain
            &&& (pre.stage == Stage::Drain || pre.stage == Stage::DrainRequest || pre.stage
                == Stage::Close || pre.stage == Stage::Finished) ==> out.state.fatal_error
                == pre.fatal_error && out.state.shutting_down
            &&& (pre.shutting_down && pre.stage == Stage::Idle) ==> out.state.fatal_error
                == pre.fatal_error && out.state.shutting_down && (event is Wake ==> out.state.stage
                == Stage::Drain)
            &&& winding_down(pre) ==> winding_down(out.state) && (out.next matches ActionView::Finish(
                r,
            ) ==> r == pre.result())
            &&& (pre.stage == Stage::Close && pre.fatal_error is None && (event matches Event::Closed(
                o,
            ) && !(o is NotReady))) ==> out.next == ActionView::Finish(Ok(()))
        }),
{
}

/// One input of the engine: an event, what the payload of the event was read
/// as, and what text the serializer made of the reply in the event.
pub struct Input<C, N> {
    pub event: Event<C, N>,
    pub incoming: Result<IncomingView, ErrorView>,
    pub encoded: Option<Seq<char>>,
}

/// The state of the engine after a sequence of inputs.
pub open spec fn run<C, N>(state: ClientView<C>, inputs: Seq<Input<C, N>>) -> ClientView<C>
    decreases inputs.len(),
{
    if inputs.len() == 0 {
        state
    } else {
        let input = inputs.last();
        expected(run(state, inputs.drop_last()), input.event, input.incoming, input.encoded).state
    }
}

/// The invariant of the engine holds after any sequence of inputs.
pub proof fn run_stays_well_formed<C, N>(state: ClientView<C>, inputs: Seq<Input<C, N>>)
    requires
        state.wf(),
    ensures
        run(state, inputs).wf(),
    decreases inputs.len(),
{
    if inputs.len() > 0 {
        let input = inputs.last();
        run_stays_well_formed(state, inputs.drop_last());
        engine_stays_well_formed(
            run(state, inputs.drop_last()),
            input.event,
            input.incoming,
            input.encoded,
        );
    }
}

/// How many of the inputs entered a call into the table.
pub open spec fn calls_entered<C, N>(state: ClientView<C>, inputs: Seq<Input<C, N>>) -> nat
    decreases inputs.len(),
{
    if inputs.len() == 0 {
        0
    } else {
        let before = run(state, inputs.drop_last());
        let one: nat = if registers_call(before, inputs.last().event) {
            1
        } else {
            0
        };
        calls_entered(state, inputs.drop_last()) + one
    }
}

/// How many of the inputs delivered the reply to a call that waited.
pub open spec fn calls_answered<C, N>(state: ClientView<C>, inputs: Seq<Input<C, N>>) -> nat
    decreases inputs.len(),
{
    if inputs.len() == 0 {
        0
    } else {
        let before = run(state, inputs.drop_last());
        let one: nat = if resolves_call(before, inputs.last().event, inputs.last().incoming) {
            1
        } else {
            0
        };
        calls_answered(state, inputs.drop_last()) + one
    }
}

/// At any time the table holds as many entries as calls have entered it and
/// not been answered: after any inputs, the count of the table is the count
/// before, plus the calls that entered, minus the calls that were answered.
pub proof fn table_holds_the_unanswered_calls<C, N>(
    state: ClientView<C>,
    inputs: Seq<Input<C, N>>,
)
    requires
        state.wf(),
    ensures
        run(state, inputs).pending.len() == state.pending.len() + calls_entered(state, inputs)
            - calls_answered(state, inputs),
    decreases inputs.len(),
{
    if inputs.len() > 0 {
        let input = inputs.last();
        table_holds_the_unanswered_calls(state, inputs.drop_last());
        run_stays_well_formed(state, inputs.drop_last());
        table_counts_waiting_calls(
            run(state, inputs.drop_last()),
            input.event,
            input.incoming,
            input.encoded,
        );
    }
}

/// The count of ids never falls along a run.
pub proof fn issued_grows_along_a_run<C, N>(
    state: ClientView<C>,
    inputs: Seq<Input<C, N>>,
    i: int,
    j: int,
)
    requires
        state.wf(),
        0 <= i <= j <= inputs.len(),
    ensures
        run(state, inputs.take(i)).issued <= run(state, inputs.take(j)).issued,
    decreases j - i,
{
    if i < j {
        issued_grows_along_a_run(state, inputs, i, j - 1);
        let input = inputs[j - 1];
        assert(inputs.take(j).drop_last() =~= inputs.take(j - 1));
        assert(inputs.take(j).last() == input);
        run_stays_well_formed(state, inputs.take(j - 1));
        ids_only_grow(run(state, inputs.take(j - 1)), input.event, input.incoming, input.encoded);
    }
}

/// No two calls get the same id: of two inputs that each enter a call into
/// the table, the later one does so under a greater id. The id under which
/// an input enters a call is the count of ids before that input, plus one.
pub proof fn calls_get_distinct_ids<C, N>(
    state: ClientView<C>,
    inputs: Seq<Input<C, N>>,
    i: int,
    j: int,
)
    requires
        state.wf(),
        0 <= i < j < inputs.len(),
        registers_call(run(state, inputs.take(i)), inputs[i].event),
        registers_call(run(state, inputs.take(j)), inputs[j].event),
    ensures
        run(state, inputs.take(i)).issued + 1 < run(state, inputs.take(j)).issued + 1,
        run(state, inputs.take(i + 1)).pending.contains_key(
            (run(state, inputs.take(i)).issued + 1) as u64,
        ),
{
    let input = inputs[i];
    let before = run(state, inputs.take(i));
    assert(inputs.take(i + 1).drop_last() =~= inputs.take(i));
    assert(inputs.take(i + 1).last() == input);
    run_stays_well_formed(state, inputs.take(i));
    ids_only_grow(before, input.event, input.incoming, input.encoded);
    issued_grows_along_a_run(state, inputs, i + 1, j);
}

/// Whether the engine is shutting down and past its last working turn.
pub open spec fn winding_down<C>(state: ClientView<C>) -> bool {
    &&& state.shutting_down
    &&& state.stage == Stage::Idle || state.stage == Stage::Drain || state.stage
        == Stage::DrainRequest || state.stage == Stage::Close || state.stage == Stage::Finished
}

/// A shutdown that began without an error ends without one, whatever
/// happens on the way: from a state that is winding down without a fatal
/// error, after any inputs the engine is still winding down without a fatal
/// error, and the result with which it terminates is `Ok(())`.
pub proof fn shutdown_without_error_ends_in_ok<C, N>(
    state: ClientView<C>,
    inputs: Seq<Input<C, N>>,
)
    requires
        state.wf(),
        winding_down(state),
        state.fatal_error is None,
    ensures
        run(state, inputs).wf(),
        winding_down(run(state, inputs)),
        run(state, inputs).fatal_error is None,
        run(state, inputs).result() == Ok::<(), ErrorView>(()),
    decreases inputs.len(),
{
    if inputs.len() > 0 {
        let input = inputs.last();
        let before = run(state, inputs.drop_last());
        shutdown_without_error_ends_in_ok(state, inputs.drop_last());
        engine_stays_well_formed(before, input.event, input.incoming, input.encoded);
        last_handle_gone_ends_in_ok(before, input.event, input.incoming, input.encoded);
    }
}

/// Payloads reach the sink in the order in which their messages were pulled:
/// the engine asks for the next message only while no payload is parked and
/// none is with the sink, and a turn of a working engine starts with the
/// parked payload.
pub proof fn payloads_keep_their_order<C, N>(
    pre: ClientView<C>,
    event: Event<C, N>,
    incoming: Result<IncomingView, ErrorView>,
    encoded: Option<Seq<char>>,
)
    requires
        pre.wf(),
    ensures
        ({
            let out = expected(pre, event, incoming, encoded);
            &&& out.next == ActionView::PollOutgoing ==> out.state.pending_payload is None
                && out.state.stage == Stage::Outgoing
            &&& (pre.stage == Stage::Idle && event is Wake && !pre.should_shut_down()
                && pre.pending_payload is Some) ==> out.next == ActionView::StartSend(
                pre.pending_payload->0,
            )
            &&& (pre.pending_payload is Some && out.state.pending_payload != pre.pending_payload)
                ==> out.next == ActionView::StartSend(pre.pending_payload->0)
        }),
{
}

/// The frame of a call and the frame of a notification are never read as a
/// reply: they have neither a `result` nor an `error`.
pub proof fn own_frames_are_no_replies(id: u64, method: Seq<char>, params: Option<ParamsView>)
    ensures
        output_of(call_frame(id, method, params)) is None,
        output_of(notification_frame(method, params)) is None,
{
    reveal_strlit("jsonrpc");
    reveal_strlit("method");
    reveal_strlit("params");
    reveal_strlit("id");
    reveal_strlit("result");
    reveal_strlit("error");
    let shared = request_members(method, params);
    let call = shared.push(("id"@, JsonView::Number(crate::json::NumberView::PosInt(id))));
    assert(find_member(shared, "result"@) is None && find_member(shared, "error"@) is None
        && find_member(shared, "id"@) is None) by {
        member_names_differ();
        reveal_with_fuel(find_member, 4);
        match params {
            Some(p) => {
                assert(shared.drop_last().drop_last().drop_last() =~= Seq::empty());
            },
            None => {
                assert(shared.drop_last().drop_last() =~= Seq::empty());
            },
        }
    }
    assert(find_member(call, "result"@) is None && find_member(call, "error"@) is None) by {
        member_names_differ();
        assert(call.drop_last() =~= shared);
    }
}

/// The frame of a call holds what the call was made of: read by name, its
/// members are the version `"2.0"`, the method, the id, and the parameters as
/// they were normalized, with no `params` member where there are none.
pub proof fn call_frame_holds_its_parts(id: u64, method: Seq<char>, params: Option<ParamsView>)
    ensures
        call_frame(id, method, params) matches JsonView::Object(members) && {
            &&& find_member(members, "jsonrpc"@) == Some(JsonView::String("2.0"@))
            &&& find_member(members, "method"@) == Some(JsonView::String(method))
            &&& find_member(members, "id"@) == Some(
                JsonView::Number(crate::json::NumberView::PosInt(id)),
            )
            &&& find_member(members, "params"@) == match params {
                Some(p) => Some(crate::params::params_value(Some(p))),
                None => None,
            }
        },
        notification_frame(method, params) matches JsonView::Object(members) && {
            &&& find_member(members, "jsonrpc"@) == Some(JsonView::String("2.0"@))
            &&& find_member(members, "method"@) == Some(JsonView::String(method))
            &&& find_member(members, "id"@) is None
            &&& find_member(members, "params"@) == match params {
                Some(p) => Some(crate::params::params_value(Some(p))),
                None => None,
            }
        },
{
    member_names_differ();
    reveal_strlit("jsonrpc");
    reveal_strlit("method");
    reveal_strlit("params");
    reveal_strlit("id");
    assert("jsonrpc"@ != "method"@ && "jsonrpc"@ != "params"@ && "method"@ != "params"@) by {
        assert("jsonrpc"@.len() == 7);
        assert("method"@.len() == 6);
        assert("params"@.len() == 6);
        assert("method"@[0] == 'm');
        assert("params"@[0] == 'p');
    }
    let shared = request_members(method, params);
    let call = shared.push(("id"@, JsonView::Number(crate::json::NumberView::PosInt(id))));
    reveal_with_fuel(find_member, 5);
    match params {
        Some(p) => {
            assert(shared.drop_last().drop_last().drop_last() =~= Seq::empty());
        },
        None => {
            assert(shared.drop_last().drop_last() =~= Seq::empty());
        },
    }
    assert(call.drop_last() =~= shared);
}

/// A frame can be written exactly if its parameters can: the members of the
/// frame itself have four different names, so an object with two members of
/// one name can only stand in the parameters.
pub proof fn frame_is_written_if_its_parameters_are(
    id: u64,
    method: Seq<char>,
    params: Option<ParamsView>,
)
    ensures
        crate::json::names_distinct(call_frame(id, method, params)) == crate::json::names_distinct(
            crate::params::params_value(params),
        ),
        crate::json::names_distinct(notification_frame(method, params))
            == crate::json::names_distinct(crate::params::params_value(params)),
{
    member_names_differ();
    reveal_strlit("jsonrpc");
    reveal_strlit("method");
    reveal_strlit("params");
    reveal_strlit("id");
    assert("jsonrpc"@ != "method"@ && "jsonrpc"@ != "params"@ && "method"@ != "params"@) by {
        assert("jsonrpc"@.len() == 7);
        assert("method"@.len() == 6);
        assert("params"@.len() == 6);
        assert("method"@[0] == 'm');
        assert("params"@[0] == 'p');
    }
    let shared = request_members(method, params);
    let call = shared.push(("id"@, JsonView::Number(crate::json::NumberView::PosInt(id))));
    let value = crate::params::params_value(params);
    assert(crate::table::distinct_keys(shared));
    assert(crate::table::distinct_keys(call));
    match params {
        Some(p) => {
            assert(shared[2].1 == value);
            assert(call[2].1 == value);
            if crate::json::names_distinct(value) {
                assert(crate::json::members_names_distinct(shared));
                assert(crate::json::members_names_distinct(call));
            }
        },
        None => {
            assert(crate::json::members_names_distinct(shared));
            assert(crate::json::members_names_distinct(call));
        },
    }
}

/// The names of the members of a frame are different names.
proof fn member_names_differ()
    ensures
        "jsonrpc"@ != "result"@,
        "jsonrpc"@ != "error"@,
        "jsonrpc"@ != "id"@,
        "method"@ != "result"@,
        "method"@ != "error"@,
        "method"@ != "id"@,
        "params"@ != "result"@,
        "params"@ != "error"@,
        "params"@ != "id"@,
        "id"@ != "result"@,
        "id"@ != "error"@,
{
    reveal_strlit("jsonrpc");
    reveal_strlit("method");
    reveal_strlit("params");
    reveal_strlit("id");
    reveal_strlit("result");
    reveal_strlit("error");
    assert("jsonrpc"@.len() == 7);
    assert("method"@.len() == 6);
    assert("params"@.len() == 6);
    assert("id"@.len() == 2);
    assert("result"@.len() == 6);
    assert("error"@.len() == 5);
    assert("method"@[0] == 'm');
    assert("params"@[0] == 'p');
    assert("result"@[0] == 'r');
}

/// A subscriber that left gets nothing more, and its leaving is answered by
/// exactly one unsubscribe call. After the removal the table no longer holds
/// the id, the one action of the step is the unsubscribe call, and the
/// handler should shut down exactly if the table is empty. A notification for
/// an id that the table does not hold is never delivered.
pub proof fn departed_subscriber_gets_nothing_more<S>(
    pre: HandlerView<S>,
    id: crate::pubsub::SubscriptionId,
    later: HandlerView<S>,
    message: crate::pubsub::SubscriptionMessage,
)
    requires
        pre.wf(),
        pre.stage == HandlerStage::Messages,
        later.wf(),
        later.stage == HandlerStage::Messages,
        !has_key(later.subscribers, message.subscription@),
    ensures
        ({
            let out = handler_expected(
                pre,
                HandlerEvent::Message(MessageOutcome::Item(SubscriberMsg::RemoveSubscriber(id))),
            );
            &&& !has_key(out.state.subscribers, id@)
            &&& out.state.subscribers == without_entry(pre.subscribers, id@)
            &&& out.next == HandlerActionView::Unsubscribe {
                method: pre.unsub_method,
                parameters: crate::pubsub::unsubscribe_parameters(pre.unsub_parameters, id@),
            }
            &&& out.state.should_shut_down == (out.state.subscribers.len() == 0)
            &&& out.state.wf()
        }),
        ({
            let out = handler_expected(
                later,
                HandlerEvent::Message(MessageOutcome::Item(SubscriberMsg::NewMessage(message))),
            );
            out.next == HandlerActionView::PollMessages && out.state.subscribers
                == later.subscribers
        }),
{
    without_entry_drops_key(pre.subscribers, id@);
}

/// A subscriber that is not in the table gets nothing until it joins again:
/// unless the event is that very subscriber joining, it is still not in the
/// table afterwards, and the step delivers nothing to it.
pub proof fn absent_subscriber_stays_absent<S>(
    pre: HandlerView<S>,
    event: HandlerEvent<S>,
    id: crate::pubsub::SubscriptionIdView,
)
    requires
        pre.wf(),
        !has_key(pre.subscribers, id),
        !(event matches HandlerEvent::Message(
            MessageOutcome::Item(SubscriberMsg::NewSubscriber(joining, _)),
        ) && joining@ == id),
    ensures
        ({
            let out = handler_expected(pre, event);
            &&& !has_key(out.state.subscribers, id)
            &&& !(out.next matches HandlerActionView::Deliver { to, .. } && to == id)
        }),
{
    let out = handler_expected(pre, event);
    match (pre.stage, event) {
        (
            HandlerStage::Messages,
            HandlerEvent::Message(MessageOutcome::Item(SubscriberMsg::NewSubscriber(other, sender))),
        ) => {
            let after = out.state.subscribers;
            if has_key(after, id) {
                let i = crate::table::slot_of(after, id);
                assert(after[i].0 == id);
                if has_key(pre.subscribers, other@) {
                    let j = crate::table::slot_of(pre.subscribers, other@);
                    if i != j {
                        assert(pre.subscribers[i].0 == id);
                    }
                } else {
                    if i < pre.subscribers.len() {
                        assert(pre.subscribers[i].0 == id);
                    }
                }
            }
        },
        (
            HandlerStage::Messages,
            HandlerEvent::Message(MessageOutcome::Item(SubscriberMsg::RemoveSubscriber(other))),
        ) => {
            let after = out.state.subscribers;
            if has_key(after, id) {
                let i = crate::table::slot_of(after, id);
                assert(after[i].0 == id);
                if has_key(pre.subscribers, other@) {
                    let j = crate::table::slot_of(pre.subscribers, other@);
                    let i0 = if i < j {
                        i
                    } else {
                        i + 1
                    };
                    assert(after[i] == pre.subscribers[i0]);
                    assert(pre.subscribers[i0].0 == id);
                }
            }
        },
        _ => {},
    }
}

/// A handler delivers only to subscribers that it holds, and only an
/// unsubscribe call or a delivery puts a side effect in flight; while one is
/// in flight the handler pulls no message.
pub proof fn handler_serialises_its_side_effects<S>(pre: HandlerView<S>, event: HandlerEvent<S>)
    requires
        pre.wf(),
    ensures
        ({
            let out = handler_expected(pre, event);
            &&& out.state.wf()
            &&& out.next == HandlerActionView::PollMessages ==> !out.state.busy
            &&& out.next matches HandlerActionView::Deliver { to, .. } ==> has_key(
                pre.subscribers,
                to,
            ) && out.state.subscribers == pre.subscribers
        }),
{
    let out = handler_expected(pre, event);
    match (pre.stage, event) {
        (
            HandlerStage::Messages,
            HandlerEvent::Message(MessageOutcome::Item(SubscriberMsg::NewSubscriber(id, sender))),
        ) => {
            crate::table::with_entry_keeps_distinct(pre.subscribers, id@, sender);
        },
        (
            HandlerStage::Messages,
            HandlerEvent::Message(MessageOutcome::Item(SubscriberMsg::RemoveSubscriber(id))),
        ) => {
            without_entry_drops_key(pre.subscribers, id@);
        },
        _ => {},
    }
}

} // verus!
