//! What holds of messages, as they are written and read.
use crate::json;
use crate::json::{JsonView, MAX_DEPTH};
use crate::parts;
use crate::protocol::message;
use crate::protocol::message::{
    ErrorView, JsonRpcError, JsonRpcNotification, JsonRpcRequest, JsonRpcResponse,
    NotificationView, RequestView, ResponseView,
};
use crate::transport;
use crate::transport::message::{JsonRpcMessage, MessageView};
use crate::transport::{CommandView, EventView, TransportCommand, TransportEvent};
use vstd::prelude::*;

verus! {

/// The view of a message of any kind holds all of it.
pub proof fn views_of_messages_hold_all(
    request: JsonRpcRequest,
    response: JsonRpcResponse,
    notification: JsonRpcNotification,
    error: JsonRpcError,
)
    ensures
        request@.jsonrpc == request.jsonrpc@,
        request@.id == request.id,
        request@.method == request.method@,
        request.params is None ==> request@.params is None,
        request.params matches Some(params) ==> request@.params == Some(params@),
        response@.jsonrpc == response.jsonrpc@,
        response@.id == response.id,
        response.result is None ==> response@.result is None,
        response.result matches Some(result) ==> response@.result == Some(result@),
        response.error is None ==> response@.error is None,
        response.error matches Some(error) ==> response@.error == Some(error@),
        notification@.jsonrpc == notification.jsonrpc@,
        notification@.method == notification.method@,
        notification.params is None ==> notification@.params is None,
        notification.params matches Some(params) ==> notification@.params == Some(params@),
        error@.code == error.code,
        error@.message == error.message@,
        error.data is None ==> error@.data is None,
        error.data matches Some(data) ==> error@.data == Some(data@),
        JsonRpcMessage::Request(request)@ == MessageView::Request(request@),
        JsonRpcMessage::Response(response)@ == MessageView::Response(response@),
        JsonRpcMessage::Notification(notification)@ == MessageView::Notification(notification@),
{
}

/// The view of what a transport is told, or tells, holds all of it.
pub proof fn views_of_commands_and_events_hold_all(
    message: JsonRpcMessage,
    error: crate::error::McpError,
    event: TransportEvent,
    command: TransportCommand,
    line: &str,
)
    ensures
        TransportCommand::SendMessage(message)@ == CommandView::SendMessage(message@),
        TransportCommand::Close@ == CommandView::Close,
        TransportEvent::Message(message)@ == EventView::Message(message@),
        TransportEvent::Error(error)@ == EventView::Error(error@),
        TransportEvent::Closed@ == EventView::Closed,
        transport::optional_event_view(Some(event)) == Some(event@),
        transport::optional_event_view(None) is None,
        transport::message::optional_message_view(Some(message)) == Some(message@),
        transport::message::optional_message_view(None) is None,
        transport::session::optional_command_view(Some(command)) == Some(command@),
        transport::session::optional_command_view(None) is None,
        transport::session::line_view(Some(line)) == Some(line@),
        transport::session::line_view(None) is None,
{
}

/// A request is written with its version, id, method and parameters, null where it has none.
pub proof fn members_of_a_written_request(request: RequestView)
    ensures
        request.json().is_object_of(4),
        request.json().member("jsonrpc"@) == Some(JsonView::Str(request.jsonrpc)),
        request.json().member("id"@) == Some(JsonView::PosInt(request.id)),
        request.json().member("method"@) == Some(JsonView::Str(request.method)),
        request.json().member("params"@) == Some(
            match request.params {
                Some(params) => params,
                None => JsonView::Null,
            },
        ),
        MessageView::Request(request).json() == request.json(),
{
    broadcast use json::lookup_push;

    message::names_differ();
}

/// A response is written with its version, id, result and error, null where it has none.
pub proof fn members_of_a_written_response(response: ResponseView)
    ensures
        response.json().is_object_of(4),
        response.json().member("jsonrpc"@) == Some(JsonView::Str(response.jsonrpc)),
        response.json().member("id"@) == Some(JsonView::PosInt(response.id)),
        response.json().member("result"@) == Some(
            match response.result {
                Some(result) => result,
                None => JsonView::Null,
            },
        ),
        response.json().member("error"@) == Some(
            match response.error {
                Some(error) => error.json(),
                None => JsonView::Null,
            },
        ),
        MessageView::Response(response).json() == response.json(),
{
    broadcast use json::lookup_push;

    message::names_differ();
}

/// A notification is written with its version, method and parameters, null where it has none. It
/// has no id.
pub proof fn members_of_a_written_notification(notification: NotificationView)
    ensures
        notification.json().is_object_of(3),
        notification.json().member("jsonrpc"@) == Some(JsonView::Str(notification.jsonrpc)),
        notification.json().member("method"@) == Some(JsonView::Str(notification.method)),
        notification.json().member("params"@) == Some(
            match notification.params {
                Some(params) => params,
                None => JsonView::Null,
            },
        ),
        notification.json().member("id"@) is None,
        MessageView::Notification(notification).json() == notification.json(),
{
    broadcast use json::lookup_push;

    message::names_differ();
}

/// An error is written with its code, its message, and what it holds besides.
pub proof fn members_of_a_written_error(error: ErrorView)
    ensures
        error.json().is_object_of(3),
        error.code >= 0 ==> error.json().member("code"@) == Some(
            JsonView::PosInt(error.code as u64),
        ),
        error.code < 0 ==> error.json().member("code"@) == Some(
            JsonView::NegInt(error.code as i64),
        ),
        error.json().member("message"@) == Some(JsonView::Str(error.message)),
        error.json().member("data"@) == Some(
            match error.data {
                Some(data) => data,
                None => JsonView::Null,
            },
        ),
{
    broadcast use json::lookup_push;

    message::names_differ();
}

/// An id is a whole number that is not below zero, and an error's code one of thirty-two bits;
/// each is read as just that number.
pub proof fn numbers_are_read(natural: u64, integer: i64, field: Option<JsonView>, code: i32)
    ensures
        message::required_id(Some(JsonView::PosInt(natural))) == Some(natural),
        integer >= 0 ==> message::required_id(Some(JsonView::NegInt(integer))) == Some(
            integer as u64,
        ),
        integer < 0 ==> message::required_id(Some(JsonView::NegInt(integer))) is None,
        !(field matches Some(JsonView::PosInt(_))) && !(field matches Some(JsonView::NegInt(_)))
            ==> message::required_id(field) is None && message::required_i32(field) is None,
        message::required_i32(Some(JsonView::PosInt(natural))) == if natural <= 0x7fff_ffff {
            Some(natural as i32)
        } else {
            None
        },
        message::required_i32(Some(JsonView::NegInt(integer))) == if -0x8000_0000 <= integer
            <= 0x7fff_ffff {
            Some(integer as i32)
        } else {
            None
        },
        message::required_i32(Some(message::integer_json(code))) == Some(code),
{
}

/// Any object with a version and a method in text and an id is read as a request of just these,
/// with what it has for parameters; any other object is none.
pub proof fn a_request_is_read_from_an_object(members: Seq<(Seq<char>, JsonView)>)
    ensures
        match RequestView::of_json(JsonView::Object(members)) {
            Some(request) => {
                &&& json::lookup(members, "jsonrpc"@) == Some(JsonView::Str(request.jsonrpc))
                &&& message::required_id(json::lookup(members, "id"@)) == Some(request.id)
                &&& json::lookup(members, "method"@) == Some(JsonView::Str(request.method))
                &&& request.params == json::optional_value(json::lookup(members, "params"@))
            },
            None => {
                ||| !(json::lookup(members, "jsonrpc"@) matches Some(JsonView::Str(_)))
                ||| message::required_id(json::lookup(members, "id"@)) is None
                ||| !(json::lookup(members, "method"@) matches Some(JsonView::Str(_)))
            },
        },
{
}

/// Any object with a version in text, an id, and an error that is one, or none, is read as a
/// response of just these, with what it has for a result; any other object is none.
pub proof fn a_response_is_read_from_an_object(members: Seq<(Seq<char>, JsonView)>)
    ensures
        match ResponseView::of_json(JsonView::Object(members)) {
            Some(response) => {
                &&& json::lookup(members, "jsonrpc"@) == Some(JsonView::Str(response.jsonrpc))
                &&& message::required_id(json::lookup(members, "id"@)) == Some(response.id)
                &&& response.result == json::optional_value(json::lookup(members, "result"@))
                &&& match response.error {
                    Some(error) => json::lookup(members, "error"@) is Some && ErrorView::of_json(
                        json::lookup(members, "error"@)->0,
                    ) == Some(error),
                    None => json::lookup(members, "error"@) is None || json::lookup(
                        members,
                        "error"@,
                    ) == Some(JsonView::Null),
                }
            },
            None => {
                ||| !(json::lookup(members, "jsonrpc"@) matches Some(JsonView::Str(_)))
                ||| message::required_id(json::lookup(members, "id"@)) is None
                ||| json::lookup(members, "error"@) matches Some(error) && !(error is Null)
                    && ErrorView::of_json(error) is None
            },
        },
{
}

/// Any object with a version and a method in text is read as a notification of just these, with
/// what it has for parameters; any other object is none.
pub proof fn a_notification_is_read_from_an_object(members: Seq<(Seq<char>, JsonView)>)
    ensures
        match NotificationView::of_json(JsonView::Object(members)) {
            Some(notification) => {
                &&& json::lookup(members, "jsonrpc"@) == Some(
                    JsonView::Str(notification.jsonrpc),
                )
                &&& json::lookup(members, "method"@) == Some(JsonView::Str(notification.method))
                &&& notification.params == json::optional_value(json::lookup(members, "params"@))
            },
            None => {
                ||| !(json::lookup(members, "jsonrpc"@) matches Some(JsonView::Str(_)))
                ||| !(json::lookup(members, "method"@) matches Some(JsonView::Str(_)))
            },
        },
{
}

/// Any object with a code and a message is read as an error of just these, with what it holds
/// besides; any other object is none.
pub proof fn an_error_is_read_from_an_object(members: Seq<(Seq<char>, JsonView)>)
    ensures
        match ErrorView::of_json(JsonView::Object(members)) {
            Some(error) => {
                &&& message::required_i32(json::lookup(members, "code"@)) == Some(error.code)
                &&& json::lookup(members, "message"@) == Some(JsonView::Str(error.message))
                &&& error.data == json::optional_value(json::lookup(members, "data"@))
            },
            None => {
                ||| message::required_i32(json::lookup(members, "code"@)) is None
                ||| !(json::lookup(members, "message"@) matches Some(JsonView::Str(_)))
            },
        },
{
}

/// An array is read as the object whose members are its items, in the order in which they are
/// written.
pub proof fn an_array_is_read_as_the_object(
    first: JsonView,
    second: JsonView,
    third: JsonView,
    fourth: JsonView,
)
    ensures
        RequestView::of_json(
            JsonView::Array(Seq::empty().push(first).push(second).push(third).push(fourth)),
        ) == RequestView::of_json(
            JsonView::Object(
                Seq::empty()
                    .push(("jsonrpc"@, first))
                    .push(("id"@, second))
                    .push(("method"@, third))
                    .push(("params"@, fourth)),
            ),
        ),
        ResponseView::of_json(
            JsonView::Array(Seq::empty().push(first).push(second).push(third).push(fourth)),
        ) == ResponseView::of_json(
            JsonView::Object(
                Seq::empty()
                    .push(("jsonrpc"@, first))
                    .push(("id"@, second))
                    .push(("result"@, third))
                    .push(("error"@, fourth)),
            ),
        ),
        NotificationView::of_json(
            JsonView::Array(Seq::empty().push(first).push(second).push(third)),
        ) == NotificationView::of_json(
            JsonView::Object(
                Seq::empty()
                    .push(("jsonrpc"@, first))
                    .push(("method"@, second))
                    .push(("params"@, third)),
            ),
        ),
        ErrorView::of_json(JsonView::Array(Seq::empty().push(first).push(second).push(third)))
            == ErrorView::of_json(
            JsonView::Object(
                Seq::empty()
                    .push(("code"@, first))
                    .push(("message"@, second))
                    .push(("data"@, third)),
            ),
        ),
{
    broadcast use json::lookup_push;

    message::names_differ();
}

/// What the other side reads of a message is the message, but for values that are null: these it
/// takes for none.
pub proof fn what_is_received_is_what_was_sent(
    request: RequestView,
    response: ResponseView,
    notification: NotificationView,
    error: ErrorView,
)
    ensures
        request.received().jsonrpc == request.jsonrpc,
        request.received().id == request.id,
        request.received().method == request.method,
        request.params != Some(JsonView::Null) ==> request.received().params == request.params,
        request.params == Some(JsonView::Null) ==> request.received().params is None,
        response.received().jsonrpc == response.jsonrpc,
        response.received().id == response.id,
        response.result != Some(JsonView::Null) ==> response.received().result == response.result,
        response.result == Some(JsonView::Null) ==> response.received().result is None,
        response.error is None ==> response.received().error is None,
        response.error == Some(error) ==> response.received().error is Some,
        response.error == Some(error) ==> {
            let read = response.received().error->0;
            &&& read.code == error.code
            &&& read.message == error.message
            &&& error.data != Some(JsonView::Null) ==> read.data == error.data
            &&& error.data == Some(JsonView::Null) ==> read.data is None
        },
        notification.received().jsonrpc == notification.jsonrpc,
        notification.received().method == notification.method,
        notification.params != Some(JsonView::Null) ==> notification.received().params
            == notification.params,
        notification.params == Some(JsonView::Null) ==> notification.received().params is None,
        MessageView::Request(request).received() == MessageView::Request(request.received()),
        MessageView::Response(response).received() == MessageView::Response(response.received()),
        MessageView::Notification(notification).received() == MessageView::Notification(
            notification.received(),
        ),
{
}

/// What is a request is read as one; what is none, and is a response, is read as that; what is
/// neither, and is a notification, is read as that.
pub proof fn kinds_are_told_apart(value: JsonView)
    ensures
        RequestView::of_json(value) matches Some(request) ==> MessageView::of_json(value) == Some(
            MessageView::Request(request),
        ),
        RequestView::of_json(value) is None ==> (ResponseView::of_json(value) matches Some(
            response,
        ) ==> MessageView::of_json(value) == Some(MessageView::Response(response))),
        RequestView::of_json(value) is None && ResponseView::of_json(value) is None ==> (
        NotificationView::of_json(value) matches Some(notification) ==> MessageView::of_json(value)
            == Some(MessageView::Notification(notification))),
        RequestView::of_json(value) is None && ResponseView::of_json(value) is None
            && NotificationView::of_json(value) is None ==> MessageView::of_json(value) is None,
{
}

/// The text names none of the fields of a message twice.
pub open spec fn names_no_field_twice(text: Seq<char>) -> bool {
    &&& parts::names_once(text, "jsonrpc"@)
    &&& parts::names_once(text, "id"@)
    &&& parts::names_once(text, "method"@)
    &&& parts::names_once(text, "params"@)
    &&& parts::names_once(text, "result"@)
    &&& parts::names_once(text, "error"@)
    &&& parts::field_text(text, "error"@, 3, 4) matches Some(error) ==> {
        &&& parts::names_once(error, "code"@)
        &&& parts::names_once(error, "message"@)
        &&& parts::names_once(error, "data"@)
    }
}

/// A text that names no field twice holds the message that its JSON holds, of any kind; a text
/// that is not JSON holds none.
pub proof fn a_text_holds_the_message_of_its_json(text: Seq<char>)
    ensures
        json::json_parse(text) is None ==> MessageView::of_text(text) is None,
        json::json_parse(text) is Some && names_no_field_twice(text) ==> MessageView::of_text(text)
            == MessageView::of_json(json::json_parse(text)->0),
{
}

/// A text that names a field twice holds no message of a kind that has the field.
pub proof fn a_field_named_twice_is_refused(text: Seq<char>)
    ensures
        !parts::names_once(text, "jsonrpc"@) ==> MessageView::of_text(text) is None,
        !parts::names_once(text, "method"@) ==> !(MessageView::of_text(text) matches Some(
            MessageView::Request(_),
        )) && !(MessageView::of_text(text) matches Some(MessageView::Notification(_))),
        !parts::names_once(text, "params"@) ==> !(MessageView::of_text(text) matches Some(
            MessageView::Request(_),
        )) && !(MessageView::of_text(text) matches Some(MessageView::Notification(_))),
        !parts::names_once(text, "id"@) ==> !(MessageView::of_text(text) matches Some(
            MessageView::Request(_),
        )) && !(MessageView::of_text(text) matches Some(MessageView::Response(_))),
        !parts::names_once(text, "result"@) || !parts::names_once(text, "error"@) ==> !(
        MessageView::of_text(text) matches Some(MessageView::Response(_))),
        parts::field_text(text, "error"@, 3, 4) matches Some(error) ==> (!parts::names_once(
            error,
            "code"@,
        ) || !parts::names_once(error, "message"@) || !parts::names_once(error, "data"@) ==> !(
        MessageView::of_text(text) matches Some(MessageView::Response(_)))),
{
}

/// A text whose JSON could be read as a request, but which names a field of a request twice, is read
/// as a response where it can be one; and a text that is neither is read as a notification where it
/// can be one.
pub proof fn a_text_refused_as_one_kind_may_be_another(text: Seq<char>)
    requires
        json::json_parse(text) is Some,
    ensures
        ({
            let value = json::json_parse(text)->0;
            let is_request = {
                &&& RequestView::of_json(value) is Some
                &&& parts::names_once(text, "jsonrpc"@)
                &&& parts::names_once(text, "id"@)
                &&& parts::names_once(text, "method"@)
                &&& parts::names_once(text, "params"@)
            };
            let is_response = {
                &&& ResponseView::of_json(value) is Some
                &&& parts::names_once(text, "jsonrpc"@)
                &&& parts::names_once(text, "id"@)
                &&& parts::names_once(text, "result"@)
                &&& parts::names_once(text, "error"@)
                &&& parts::field_text(text, "error"@, 3, 4) matches Some(error) ==> {
                    &&& parts::names_once(error, "code"@)
                    &&& parts::names_once(error, "message"@)
                    &&& parts::names_once(error, "data"@)
                }
            };
            let is_notification = {
                &&& NotificationView::of_json(value) is Some
                &&& parts::names_once(text, "jsonrpc"@)
                &&& parts::names_once(text, "method"@)
                &&& parts::names_once(text, "params"@)
            };
            let held = MessageView::of_text(text);
            &&& (held matches Some(MessageView::Request(_))) <==> is_request
            &&& (held matches Some(MessageView::Response(_))) <==> !is_request && is_response
            &&& (held matches Some(MessageView::Notification(_))) <==> !is_request && !is_response
                && is_notification
        }),
{
}

/// What a text holds is what its JSON holds, as a message of that kind.
pub proof fn a_text_holds_nothing_else(text: Seq<char>)
    ensures
        MessageView::of_text(text) matches Some(message) ==> json::json_parse(text) is Some,
        MessageView::of_text(text) matches Some(MessageView::Request(request))
            ==> RequestView::of_json(json::json_parse(text)->0) == Some(request),
        MessageView::of_text(text) matches Some(MessageView::Response(response))
            ==> ResponseView::of_json(json::json_parse(text)->0) == Some(response),
        MessageView::of_text(text) matches Some(MessageView::Notification(notification))
            ==> NotificationView::of_json(json::json_parse(text)->0) == Some(notification),
{
}

/// A name is named once exactly where no two members of the text have it.
pub proof fn a_name_stands_once(text: Seq<char>, name: Seq<char>)
    ensures
        parts::parts(text, true) is None ==> parts::names_once(text, name),
        parts::parts(text, true) matches Some(members) ==> (!parts::names_once(text, name)
            <==> exists|i: int, j: int|
            0 <= i < j < members.len() && #[trigger] members[i].0 == name && #[trigger] members[j].0
                == name),
{
}

/// Which messages survive being sent: all whose values do, below the message itself, or below its
/// error.
pub proof fn what_survives_being_sent(
    request: RequestView,
    response: ResponseView,
    notification: NotificationView,
    error: ErrorView,
)
    ensures
        request.params is None ==> MessageView::Request(request).survives(),
        request.params matches Some(params) ==> (MessageView::Request(request).survives()
            <==> params.survives((MAX_DEPTH - 1) as nat)),
        notification.params is None ==> MessageView::Notification(notification).survives(),
        notification.params matches Some(params) ==> (MessageView::Notification(
            notification,
        ).survives() <==> params.survives((MAX_DEPTH - 1) as nat)),
        response.error is None && response.result is None ==> MessageView::Response(
            response,
        ).survives(),
        response.error is None ==> (response.result matches Some(result) ==> (
        MessageView::Response(response).survives() <==> result.survives((MAX_DEPTH - 1) as nat))),
        response.result is None && response.error == Some(error) && error.data is None
            ==> MessageView::Response(response).survives(),
        response.result is None && response.error == Some(error) ==> (error.data matches Some(data)
            ==> (MessageView::Response(response).survives() <==> data.survives(
            (MAX_DEPTH - 2) as nat,
        ))),
        MAX_DEPTH == 127,
{
}

/// The first member of an object's text is the name before the colon and the value behind it; the
/// first item of an array's is the value.
pub proof fn the_first_part_is_found(
    name_text: Seq<char>,
    name: Seq<char>,
    value: Seq<char>,
    rest: Seq<char>,
)
    requires
        name_text.len() > 0,
        value.len() > 0,
        json::json_parse(name_text) == Some(JsonView::Str(name)),
        parts::value_length(name_text + seq![':'] + value + rest) == Some(name_text.len()),
        parts::value_length(value + rest) == Some(value.len()),
    ensures
        parts::first_part(name_text + seq![':'] + value + rest, true) == Some(
            ((name, value), rest),
        ),
        parts::first_part(value + rest, false) == Some(((Seq::<char>::empty(), value), rest)),
{
    let text = name_text + seq![':'] + value + rest;
    let n = name_text.len() as int;
    assert(text.take(n) =~= name_text);
    assert(text.skip(n) =~= Seq::<char>::empty() + seq![':'] + (value + rest));
    super::text::the_next_sign_is_found(Seq::empty(), ':', value + rest, ',');
    assert((value + rest).take(value.len() as int) =~= value);
    assert((value + rest).skip(value.len() as int) =~= rest);
}

/// Parts stand one behind the other, with a comma between two of them, up to the sign that closes
/// them.
pub proof fn parts_follow_each_other(
    text: Seq<char>,
    named: bool,
    part: (Seq<char>, Seq<char>),
    rest: Seq<char>,
    behind: Seq<char>,
)
    requires
        parts::first_part(text, named) == Some((part, rest)),
    ensures
        rest == seq![','] + behind ==> match parts::parts_from(behind, named) {
            Some((later, end)) => parts::parts_from(text, named) == Some(
                (seq![part] + later, end),
            ),
            None => parts::parts_from(text, named) is None,
        },
        named && rest == seq!['}'] + behind ==> parts::parts_from(text, named) == Some(
            (seq![part], behind),
        ),
        !named && rest == seq![']'] + behind ==> parts::parts_from(text, named) == Some(
            (seq![part], behind),
        ),
{
    let none = Seq::<char>::empty();
    super::text::the_next_sign_is_found(none, ',', behind, '}');
    super::text::the_next_sign_is_found(none, '}', behind, ',');
    super::text::the_next_sign_is_found(none, ']', behind, ',');
    assert(none + seq![','] + behind =~= seq![','] + behind);
    assert(none + seq!['}'] + behind =~= seq!['}'] + behind);
    assert(none + seq![']'] + behind =~= seq![']'] + behind);
    assert(Seq::empty().push(part) =~= seq![part]);
}

/// The parts of an object stand between braces, and those of an array between brackets, and
/// nothing behind them; there may be none.
pub proof fn parts_stand_between_their_signs(inner: Seq<char>)
    ensures
        parts::parts(seq!['{', '}'], true) == Some(Seq::<(Seq<char>, Seq<char>)>::empty()),
        parts::parts(seq!['[', ']'], false) == Some(Seq::<(Seq<char>, Seq<char>)>::empty()),
        parts::parts(seq!['['] + inner, true) is None,
        parts::parts(seq!['{'] + inner, false) is None,
        parts::behind(inner, '}') is None ==> parts::parts(seq!['{'] + inner, true)
            == match parts::parts_from(inner, true) {
            Some((members, end)) => if parts::unspaced(end).len() == 0 {
                Some(members)
            } else {
                None
            },
            None => None,
        },
        parts::behind(inner, ']') is None ==> parts::parts(seq!['['] + inner, false)
            == match parts::parts_from(inner, false) {
            Some((items, end)) => if parts::unspaced(end).len() == 0 {
                Some(items)
            } else {
                None
            },
            None => None,
        },
{
    let none = Seq::<char>::empty();
    super::text::the_next_sign_is_found(none, '{', inner, '[');
    super::text::the_next_sign_is_found(none, '[', inner, '{');
    assert(none + seq!['{'] + inner =~= seq!['{'] + inner);
    assert(none + seq!['['] + inner =~= seq!['['] + inner);
    super::text::the_next_sign_is_found(none, '{', seq!['}'], '[');
    super::text::the_next_sign_is_found(none, '[', seq![']'], '{');
    super::text::the_next_sign_is_found(none, '}', none, ']');
    super::text::the_next_sign_is_found(none, ']', none, '}');
    assert(none + seq!['{'] + seq!['}'] =~= seq!['{', '}']);
    assert(none + seq!['['] + seq![']'] =~= seq!['[', ']']);
    assert(none + seq!['}'] + none =~= seq!['}']);
    assert(none + seq![']'] + none =~= seq![']']);
}

/// The text under a name is that of the last member of the name.
pub proof fn the_last_text_of_a_name_is_found(
    members: Seq<(Seq<char>, Seq<char>)>,
    name: Seq<char>,
)
    ensures
        match parts::text_under(members, name) {
            Some(value) => exists|i: int|
                {
                    &&& 0 <= i < members.len()
                    &&& #[trigger] members[i] == (name, value)
                    &&& forall|j: int| i < j < members.len() ==> (#[trigger] members[j]).0 != name
                },
            None => forall|i: int| 0 <= i < members.len() ==> (#[trigger] members[i]).0 != name,
        },
    decreases members.len(),
{
    if members.len() > 0 {
        let others = members.drop_last();
        let last = members.len() - 1;
        if members.last().0 == name {
            assert(members[last] == (name, members.last().1));
        } else {
            the_last_text_of_a_name_is_found(others, name);
            if let Some(value) = parts::text_under(others, name) {
                let i = choose|i: int|
                    {
                        &&& 0 <= i < others.len()
                        &&& #[trigger] others[i] == (name, value)
                        &&& forall|j: int|
                            i < j < others.len() ==> (#[trigger] others[j]).0 != name
                    };
                assert(members[i] == (name, value));
                assert forall|j: int| i < j < members.len() implies (#[trigger] members[j]).0
                    != name by {
                    if j < last {
                        assert(others[j] == members[j]);
                    }
                }
            } else {
                assert forall|i: int| 0 <= i < members.len() implies (#[trigger] members[i]).0
                    != name by {
                    if i < last {
                        assert(others[i] == members[i]);
                    }
                }
            }
        }
    }
}

} // verus!
