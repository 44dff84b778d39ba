//! What holds of one side of a connection, event by event and request by request.
use crate::error::{McpError, McpErrorView};
use crate::json;
use crate::json::{Json, JsonView};
use crate::protocol;
use crate::protocol::laws::Step;
use crate::protocol::message::{
    JsonRpcNotification, JsonRpcRequest, JsonRpcResponse, NotificationView, RequestView,
    ResponseView,
};
use crate::protocol::{
    CancelledNotification, CancelledView, Incoming, IncomingView, ProtocolView, RequestOptions,
    RequestOutcome, DEFAULT_REQUEST_TIMEOUT_MS,
};
use crate::transport::message::MessageView;
use crate::transport::EventView;
use vstd::prelude::*;

verus! {

/// A notification whose method has a handler calls for that handler, with the notification exactly
/// as it came; one whose method has none is ignored. Nothing else changes.
pub proof fn a_notification_reaches_its_handler_as_it_came<R, N, W, P>(
    side: ProtocolView<R, N, W, P>,
    notification: NotificationView,
)
    ensures
        ({
            let event = Some(EventView::Message(MessageView::Notification(notification)));
            &&& side.notification_handlers.contains_key(notification.method) ==> (side.reaction(
                event,
            ) matches IncomingView::Notification(brought) && {
                &&& brought.jsonrpc == notification.jsonrpc
                &&& brought.method == notification.method
                &&& brought.params == notification.params
            })
            &&& !side.notification_handlers.contains_key(notification.method) ==> side.reaction(
                event,
            ) is Ignored
            &&& side.notified(event) == side
        }),
{
}

/// A request whose method has a handler calls for that handler, with the request exactly as it
/// came; one whose method has none is ignored. Nothing else changes.
pub proof fn a_request_reaches_its_handler_as_it_came<R, N, W, P>(
    side: ProtocolView<R, N, W, P>,
    request: RequestView,
)
    ensures
        ({
            let event = Some(EventView::Message(MessageView::Request(request)));
            &&& side.request_handlers.contains_key(request.method) ==> (side.reaction(
                event,
            ) matches IncomingView::Request(brought) && {
                &&& brought.jsonrpc == request.jsonrpc
                &&& brought.id == request.id
                &&& brought.method == request.method
                &&& brought.params == request.params
            })
            &&& !side.request_handlers.contains_key(request.method) ==> side.reaction(
                event,
            ) is Ignored
            &&& side.notified(event) == side
        }),
{
}

/// A response that somebody waits for is handed to whoever waits for its id, exactly as it came,
/// and nobody waits for that id any more; everybody else waits on. One that nobody waits for is
/// ignored.
pub proof fn a_response_reaches_its_waiter_as_it_came<R, N, W, P>(
    side: ProtocolView<R, N, W, P>,
    response: ResponseView,
    other: u64,
)
    ensures
        ({
            let event = Some(EventView::Message(MessageView::Response(response)));
            let after = side.notified(event);
            &&& side.response_handlers.contains_key(response.id) ==> (side.reaction(
                event,
            ) matches IncomingView::Response(waiter, brought) && {
                &&& waiter == side.response_handlers[response.id]
                &&& brought.jsonrpc == response.jsonrpc
                &&& brought.id == response.id
                &&& brought.result == response.result
                &&& brought.error == response.error
            })
            &&& !side.response_handlers.contains_key(response.id) ==> side.reaction(
                event,
            ) is Ignored
            &&& !after.response_handlers.contains_key(response.id)
            &&& other != response.id ==> {
                &&& after.response_handlers.contains_key(other)
                    == side.response_handlers.contains_key(other)
                &&& side.response_handlers.contains_key(other) ==> after.response_handlers[other]
                    == side.response_handlers[other]
            }
            &&& after.connected == side.connected
            &&& after.strict == side.strict
            &&& after.last_id == side.last_id
            &&& after.request_handlers == side.request_handlers
            &&& after.notification_handlers == side.notification_handlers
            &&& after.progress_handlers == side.progress_handlers
        }),
{
}

/// An error of the transport is passed over; its end is the end. Neither changes anything.
pub proof fn errors_are_passed_over_and_ends_are_ends<R, N, W, P>(
    side: ProtocolView<R, N, W, P>,
    error: McpErrorView,
)
    ensures
        side.reaction(Some(EventView::Error(error))) is Ignored,
        side.notified(Some(EventView::Error(error))) == side,
        side.reaction(Some(EventView::Closed)) is Stopped,
        side.notified(Some(EventView::Closed)) == side,
        side.reaction(None) is Stopped,
        side.notified(None) == side,
{
}

/// A request gets the next id; under it its waiter waits, and whoever wants to hears of its
/// progress. Everybody else waits on, and nothing else changes.
pub proof fn a_request_is_awaited_under_the_next_id<R, N, W, P>(
    side: ProtocolView<R, N, W, P>,
    on_progress: Option<P>,
    waiter: W,
    other: u64,
)
    requires
        side.last_id < u64::MAX,
    ensures
        ({
            let after = side.requested(on_progress, waiter);
            let id = (side.last_id + 1) as u64;
            &&& after.last_id == side.last_id + 1
            &&& after.response_handlers.contains_key(id)
            &&& after.response_handlers[id] == waiter
            &&& on_progress matches Some(callback) ==> {
                &&& after.progress_handlers.contains_key(id)
                &&& after.progress_handlers[id] == callback
            }
            &&& on_progress is None ==> after.progress_handlers == side.progress_handlers
            &&& other != id ==> {
                &&& after.response_handlers.contains_key(other)
                    == side.response_handlers.contains_key(other)
                &&& side.response_handlers.contains_key(other) ==> after.response_handlers[other]
                    == side.response_handlers[other]
                &&& after.progress_handlers.contains_key(other)
                    == side.progress_handlers.contains_key(other)
                &&& side.progress_handlers.contains_key(other) ==> after.progress_handlers[other]
                    == side.progress_handlers[other]
            }
            &&& after.connected == side.connected
            &&& after.strict == side.strict
            &&& after.request_handlers == side.request_handlers
            &&& after.notification_handlers == side.notification_handlers
        }),
{
}

/// When a request ends nobody hears of its progress any more; everybody else does, and nothing
/// else changes.
pub proof fn an_ended_request_is_forgotten<R, N, W, P>(
    side: ProtocolView<R, N, W, P>,
    id: u64,
    other: u64,
)
    ensures
        ({
            let after = side.finished(id);
            &&& !after.progress_handlers.contains_key(id)
            &&& other != id ==> {
                &&& after.progress_handlers.contains_key(other)
                    == side.progress_handlers.contains_key(other)
                &&& side.progress_handlers.contains_key(other) ==> after.progress_handlers[other]
                    == side.progress_handlers[other]
            }
            &&& after.response_handlers == side.response_handlers
            &&& after.connected == side.connected
            &&& after.strict == side.strict
            &&& after.last_id == side.last_id
            &&& after.request_handlers == side.request_handlers
            &&& after.notification_handlers == side.notification_handlers
        }),
{
}

/// What is sent for a request is a request of that id and method, with just the parameters that
/// were given where nobody hears of its progress.
pub proof fn a_request_is_sent_as_it_was_made(
    id: u64,
    method: Seq<char>,
    params: JsonView,
    progress: bool,
)
    ensures
        protocol::request_message(id, method, params, progress) matches MessageView::Request(sent)
            && {
            &&& sent.jsonrpc == "2.0"@
            &&& sent.id == id
            &&& sent.method == method
            &&& !progress || !(params is Object) ==> sent.params == Some(params)
        },
{
}

/// Where somebody hears of the progress of a request whose parameters are an object, the token is
/// the id, under the member for what goes with a request; every other member is as it was given.
pub proof fn a_progress_token_is_the_id(
    id: u64,
    method: Seq<char>,
    members: Seq<(Seq<char>, JsonView)>,
    other: Seq<char>,
)
    ensures
        protocol::request_message(id, method, JsonView::Object(members), true)
            matches MessageView::Request(sent) && {
            let params = sent.params->0;
            &&& sent.params is Some
            &&& params is Object
            &&& params.member("_meta"@) is Some
            &&& params.member("_meta"@)->0.is_object_of(1)
            &&& params.member("_meta"@)->0.member("progressToken"@) == Some(JsonView::PosInt(id))
            &&& other != "_meta"@ ==> params.member(other) == json::lookup(members, other)
        },
{
    broadcast use json::lookup_push;

    let meta = JsonView::Object(Seq::empty().push(("progressToken"@, JsonView::PosInt(id))));
    json::with_member_sets_one_name(members, "_meta"@, meta, "_meta"@);
    json::with_member_sets_one_name(members, "_meta"@, meta, other);
}

/// What is sent for a notification is a notification of that method and with those parameters.
pub proof fn a_notification_is_sent_as_it_was_made(method: Seq<char>, params: Option<JsonView>)
    ensures
        protocol::notification_message(method, params) matches MessageView::Notification(sent) && {
            &&& sent.jsonrpc == "2.0"@
            &&& sent.method == method
            &&& sent.params == params
        },
{
}

/// A request is answered under its own id, with the value that its handler came to and no error,
/// or with the error and no value.
pub proof fn a_request_is_answered_with_what_its_handler_came_to(
    id: u64,
    value: JsonView,
    error: McpErrorView,
)
    ensures
        ({
            let answer = protocol::answer(id, Ok(value));
            &&& answer.jsonrpc == "2.0"@
            &&& answer.id == id
            &&& answer.result == Some(value)
            &&& answer.error is None
        }),
        ({
            let answer = protocol::answer(id, Err(error));
            &&& answer.jsonrpc == "2.0"@
            &&& answer.id == id
            &&& answer.result is None
            &&& answer.error is Some
            &&& answer.error->0.code == error.code()
            &&& answer.error->0.message == error.message()
            &&& answer.error->0.data is None
        }),
        protocol::response_to_result(id, value) == protocol::answer(id, Ok(value)),
        protocol::response_to_error(id, error) == protocol::answer(id, Err(error)),
{
}

/// The value of a request is what its response has for a result, and null where it has none; the
/// failure of a request is the one that befell it.
pub proof fn the_value_of_a_request_is_its_result(
    response: JsonRpcResponse,
    result: Json,
    error: McpError,
)
    ensures
        response.result == Some(result) ==> protocol::outcome_value(
            RequestOutcome::Response(response),
        ) == Ok::<JsonView, McpErrorView>(result@),
        response.result is None ==> protocol::outcome_value(RequestOutcome::Response(response))
            == Ok::<JsonView, McpErrorView>(JsonView::Null),
        protocol::outcome_value(RequestOutcome::Failed(error)) == Err::<JsonView, McpErrorView>(
            error@,
        ),
        protocol::outcome_value(RequestOutcome::Dropped) == Err::<JsonView, McpErrorView>(
            McpErrorView::InternalError,
        ),
        protocol::outcome_value(RequestOutcome::TimedOut) == Err::<JsonView, McpErrorView>(
            McpErrorView::RequestTimeout,
        ),
        protocol::value_view(Ok(result)) == Ok::<JsonView, McpErrorView>(result@),
        protocol::value_view(Err(error)) == Err::<JsonView, McpErrorView>(error@),
{
}

/// What a handler came to is what the one who asked gets, over any connection that brings the
/// response as it was sent: the value itself, as far as it is not null, which stands for none.
pub proof fn a_value_reaches_the_one_who_asked(id: u64, value: JsonView, response: JsonRpcResponse)
    requires
        response@ == protocol::answer(id, Ok(value)).received(),
    ensures
        protocol::outcome_value(RequestOutcome::Response(response)) == Ok::<
            JsonView,
            McpErrorView,
        >(value),
{
}

/// A request waits for as long as its options say, and a minute where they do not; nobody hears
/// of its progress but whom the options name.
pub proof fn options_are_taken_as_given<P>(options: RequestOptions<P>)
    ensures
        protocol::options_in_force(Some(options)).0 == options.on_progress,
        options.timeout_ms matches Some(timeout_ms) ==> protocol::options_in_force(
            Some(options),
        ).1 == timeout_ms,
        options.timeout_ms is None ==> protocol::options_in_force(Some(options)).1 == 60000,
        protocol::options_in_force(None::<RequestOptions<P>>).0 is None,
        protocol::options_in_force(None::<RequestOptions<P>>).1 == 60000,
        DEFAULT_REQUEST_TIMEOUT_MS == 60000,
{
}

/// The view of what an event calls for holds all of it.
pub proof fn views_of_incoming_hold_all<W>(
    request: JsonRpcRequest,
    handler: W,
    response: JsonRpcResponse,
    notification: JsonRpcNotification,
    notice: CancelledNotification,
)
    ensures
        Incoming::<W>::Request(request)@ == IncomingView::<W>::Request(request@),
        (Incoming::Response { handler, response })@ == IncomingView::Response(handler, response@),
        Incoming::<W>::Notification(notification)@ == IncomingView::<W>::Notification(
            notification@,
        ),
        Incoming::<W>::Ignored@ == IncomingView::<W>::Ignored,
        Incoming::<W>::Stopped@ == IncomingView::<W>::Stopped,
        notice@.request_id == notice.request_id@,
        notice@.reason == notice.reason@,
{
}

/// A notice that a request was given up is read from any object that names the request and the
/// reason in text, and from an array of the two; it says just these.
pub proof fn a_notice_names_the_request_and_the_reason(
    members: Seq<(Seq<char>, JsonView)>,
    first: JsonView,
    second: JsonView,
)
    ensures
        match CancelledView::of_json(JsonView::Object(members)) {
            Some(notice) => {
                &&& json::lookup(members, "request_id"@) == Some(JsonView::Str(notice.request_id))
                &&& json::lookup(members, "reason"@) == Some(JsonView::Str(notice.reason))
            },
            None => {
                ||| !(json::lookup(members, "request_id"@) matches Some(JsonView::Str(_)))
                ||| !(json::lookup(members, "reason"@) matches Some(JsonView::Str(_)))
            },
        },
        CancelledView::of_json(JsonView::Array(Seq::empty().push(first).push(second)))
            == CancelledView::of_json(
            JsonView::Object(
                Seq::empty().push(("request_id"@, first)).push(("reason"@, second)),
            ),
        ),
{
    broadcast use json::lookup_push;

    reveal_strlit("request_id");
    reveal_strlit("reason");
    assert("request_id"@.len() != "reason"@.len());
}

/// What happens to a side of a connection is what each step says, one after the other.
pub proof fn steps_are_taken_in_turn<R, N, W, P>(
    side: ProtocolView<R, N, W, P>,
    steps: Seq<Step<P, W>>,
    step: Step<P, W>,
    on_progress: Option<P>,
    waiter: W,
    event: Option<EventView>,
    id: u64,
    connected: bool,
)
    ensures
        side.run(Seq::empty()) == side,
        side.run(steps.push(step)) == side.run(steps).step(step),
        side.step(Step::Request(on_progress, waiter)) == side.requested(on_progress, waiter),
        side.step(Step::Event(event)) == side.notified(event),
        side.step(Step::Finish(id)) == side.finished(id),
        side.step(Step::Connected(connected)).connected == connected,
        side.step(Step::Connected(connected)).response_handlers == side.response_handlers,
        side.step(Step::Connected(connected)).progress_handlers == side.progress_handlers,
        side.step(Step::Connected(connected)).last_id == side.last_id,
        side.last_id < u64::MAX ==> side.step(Step::BadRequest).last_id == side.last_id + 1,
        side.step(Step::BadRequest).response_handlers == side.response_handlers,
        side.step(Step::BadRequest).progress_handlers == side.progress_handlers,
{
    assert(steps.push(step).drop_last() =~= steps);
}

} // verus!
