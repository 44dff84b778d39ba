//! A JSON-RPC message of any kind: how it is told apart from the other kinds, and its text.
use crate::json;
use crate::json::{Json, JsonView, MAX_DEPTH};
use crate::parts;
use crate::parts::{find_text, read_parts, stands_at_most_once};
use crate::protocol::message;
use crate::protocol::message::{
    JsonRpcNotification, JsonRpcRequest, JsonRpcResponse, NotificationView, RequestView,
    ResponseView,
};
use vstd::prelude::*;

verus! {

/// A message of any kind.
#[derive(Debug)]
pub enum JsonRpcMessage {
    Request(JsonRpcRequest),
    Response(JsonRpcResponse),
    Notification(JsonRpcNotification),
}

/// What a [`JsonRpcMessage`] holds.
pub enum MessageView {
    Request(RequestView),
    Response(ResponseView),
    Notification(NotificationView),
}

impl View for JsonRpcMessage {
    type V = MessageView;

    open spec fn view(&self) -> MessageView {
        match self {
            JsonRpcMessage::Request(request) => MessageView::Request(request@),
            JsonRpcMessage::Response(response) => MessageView::Response(response@),
            JsonRpcMessage::Notification(notification) => MessageView::Notification(notification@),
        }
    }
}

/// What an optional message holds.
pub open spec fn optional_message_view(message: Option<JsonRpcMessage>) -> Option<MessageView> {
    match message {
        Some(message) => Some(message@),
        None => None,
    }
}

/// The text names no field of a request twice.
pub open spec fn request_fields_stand_once(text: Seq<char>) -> bool {
    &&& parts::names_once(text, "jsonrpc"@)
    &&& parts::names_once(text, "id"@)
    &&& parts::names_once(text, "method"@)
    &&& parts::names_once(text, "params"@)
}

/// The text names no field of an error twice.
pub open spec fn error_fields_stand_once(text: Seq<char>) -> bool {
    &&& parts::names_once(text, "code"@)
    &&& parts::names_once(text, "message"@)
    &&& parts::names_once(text, "data"@)
}

/// The text names no field of a response twice, nor does its error.
pub open spec fn response_fields_stand_once(text: Seq<char>) -> bool {
    &&& parts::names_once(text, "jsonrpc"@)
    &&& parts::names_once(text, "id"@)
    &&& parts::names_once(text, "result"@)
    &&& parts::names_once(text, "error"@)
    &&& parts::field_text(text, "error"@, 3, 4) matches Some(error) ==> error_fields_stand_once(
        error,
    )
}

/// The text names no field of a notification twice.
pub open spec fn notification_fields_stand_once(text: Seq<char>) -> bool {
    &&& parts::names_once(text, "jsonrpc"@)
    &&& parts::names_once(text, "method"@)
    &&& parts::names_once(text, "params"@)
}

impl MessageView {
    /// The message as JSON.
    pub open spec fn json(self) -> JsonView {
        match self {
            MessageView::Request(request) => request.json(),
            MessageView::Response(response) => response.json(),
            MessageView::Notification(notification) => notification.json(),
        }
    }

    /// The message that JSON holds. What can be read as a request is one; what else can be read
    /// as a response is one; what is left may be a notification.
    pub open spec fn of_json(json: JsonView) -> Option<MessageView> {
        match RequestView::of_json(json) {
            Some(request) => Some(MessageView::Request(request)),
            None => match ResponseView::of_json(json) {
                Some(response) => Some(MessageView::Response(response)),
                None => match NotificationView::of_json(json) {
                    Some(notification) => Some(MessageView::Notification(notification)),
                    None => None,
                },
            },
        }
    }

    /// The message that a text holds, as [`MessageView::of_json`] tells the kinds apart. A text
    /// that names a field of some kind twice is none of that kind.
    pub open spec fn of_text(text: Seq<char>) -> Option<MessageView> {
        match json::json_parse(text) {
            Some(json) => if request_fields_stand_once(text) && RequestView::of_json(json) is Some {
                Some(MessageView::Request(RequestView::of_json(json)->0))
            } else if response_fields_stand_once(text) && ResponseView::of_json(json) is Some {
                Some(MessageView::Response(ResponseView::of_json(json)->0))
            } else if notification_fields_stand_once(text) && NotificationView::of_json(json)
                is Some {
                Some(MessageView::Notification(NotificationView::of_json(json)->0))
            } else {
                None
            },
            None => None,
        }
    }

    /// The message as the other side reads it: a value that is null is none.
    pub open spec fn received(self) -> MessageView {
        match self {
            MessageView::Request(request) => MessageView::Request(request.received()),
            MessageView::Response(response) => MessageView::Response(response.received()),
            MessageView::Notification(notification) => MessageView::Notification(
                notification.received(),
            ),
        }
    }

    /// The values in the message survive being written and read.
    pub open spec fn survives(self) -> bool {
        match self {
            MessageView::Request(request) => json::or_null(request.params).survives(
                (MAX_DEPTH - 1) as nat,
            ),
            MessageView::Response(response) => {
                &&& json::or_null(response.result).survives((MAX_DEPTH - 1) as nat)
                &&& response.error matches Some(error) ==> json::or_null(error.data).survives(
                    (MAX_DEPTH - 2) as nat,
                )
            },
            MessageView::Notification(notification) => json::or_null(notification.params).survives(
                (MAX_DEPTH - 1) as nat,
            ),
        }
    }
}

/// A message of any kind is read from its own JSON as that same message, of that same kind.
pub proof fn message_is_read_from_its_json(message: MessageView)
    ensures
        MessageView::of_json(message.json()) == Some(message.received()),
{
    match message {
        MessageView::Request(request) => message::request_is_read_from_its_json(request),
        MessageView::Response(response) => message::response_is_read_from_its_json(response),
        MessageView::Notification(notification) => {
            message::notification_is_read_from_its_json(notification);
        },
    }
}

/// The JSON of a message survives where the values in it do.
proof fn message_json_survives(message: MessageView)
    requires
        message.survives(),
    ensures
        message.json().survives(MAX_DEPTH as nat),
{
    message::names_differ();
    reveal_with_fuel(JsonView::survives, 3);
    if let MessageView::Response(response) = message {
        if let Some(error) = response.error {
            let members = error.json()->Object_0;
            assert(json::distinct_names(members));
            assert forall|i: int|
                #![trigger members[i]]
                0 <= i < members.len() implies members[i].1.survives((MAX_DEPTH - 2) as nat) by {
                assert(i == 0 || i == 1 || i == 2);
            }
            assert(error.json().survives((MAX_DEPTH - 1) as nat));
        }
    }
    let members = message.json()->Object_0;
    assert(json::distinct_names(members));
    assert forall|i: int|
        #![trigger members[i]]
        0 <= i < members.len() implies members[i].1.survives((MAX_DEPTH - 1) as nat) by {
        assert(i == 0 || i == 1 || i == 2 || i == 3);
    }
}

/// The text of a message is read as that message.
pub(crate) proof fn message_is_read_from_its_text(message: MessageView, text: Seq<char>)
    requires
        message.survives(),
        parts::is_written_as(text, message.json()),
    ensures
        MessageView::of_text(text) == Some(message.received()),
{
    message::names_differ();
    message_json_survives(message);
    message_is_read_from_its_json(message);
    let json = message.json();
    parts::written_names_stand_once(text, json, "jsonrpc"@);
    parts::written_names_stand_once(text, json, "id"@);
    parts::written_names_stand_once(text, json, "method"@);
    parts::written_names_stand_once(text, json, "params"@);
    parts::written_names_stand_once(text, json, "result"@);
    parts::written_names_stand_once(text, json, "error"@);
    if let MessageView::Response(response) = message {
        message::response_is_read_from_its_json(response);
        let members = json->Object_0;
        let found = parts::parts(text, true)->0;
        parts::text_under_last_name(found, members, "error"@);
        json::lookup_push(members.drop_last(), members.last(), "error"@);
        assert(members.drop_last().push(members.last()) =~= members);
        let error_text = parts::text_under(found, "error"@)->0;
        let error_json = members.last().1;
        if let Some(error) = response.error {
            assert(json::distinct_names(error.json()->Object_0));
        }
        parts::written_names_stand_once(error_text, error_json, "code"@);
        parts::written_names_stand_once(error_text, error_json, "message"@);
        parts::written_names_stand_once(error_text, error_json, "data"@);
    } else if let MessageView::Notification(notification) = message {
        message::notification_is_read_from_its_json(notification);
    }
}

/// Whether each of these names stands at most once among the members of an object's text.
fn stand_once(members: &Option<Vec<(String, String)>>, names: &[&str]) -> (once: bool)
    ensures
        once == (parts::optional_parts_view(*members) matches Some(found) ==> forall|i: int|
            0 <= i < names@.len() ==> parts::at_most_once(found, (#[trigger] names@[i])@)),
{
    match members {
        Some(found) => {
            let mut i: usize = 0;
            while i < names.len()
                invariant
                    i <= names.len(),
                    parts::optional_parts_view(*members) == Some(parts::parts_view(found@)),
                    forall|k: int|
                        0 <= k < i ==> parts::at_most_once(
                            parts::parts_view(found@),
                            (#[trigger] names@[k])@,
                        ),
                decreases names.len() - i,
            {
                if !stands_at_most_once(found, names[i]) {
                    assert(!parts::at_most_once(
                        parts::parts_view(found@),
                        names@[i as int]@,
                    ));
                    return false;
                }
                i += 1;
            }
            true
        },
        None => true,
    }
}

/// Whether the text of an error names none of its fields twice.
fn error_stands_once(text: &str) -> (once: bool)
    ensures
        once == error_fields_stand_once(text@),
{
    let members: Option<Vec<(String, String)>> = read_parts(text, true);
    let names: [&str; 3] = ["code", "message", "data"];
    let once: bool = stand_once(&members, &names);
    assert(names@[0] == "code" && names@[1] == "message" && names@[2] == "data");
    once
}

/// Whether the text of a response names no field of its error twice.
fn error_in_stands_once(text: &str, members: &Option<Vec<(String, String)>>) -> (once: bool)
    requires
        parts::optional_parts_view(*members) == parts::parts(text@, true),
    ensures
        once == (parts::field_text(text@, "error"@, 3, 4) matches Some(error)
            ==> error_fields_stand_once(error)),
{
    match members {
        Some(members) => match find_text(members, "error") {
            Some(error) => error_stands_once(error),
            None => true,
        },
        None => match read_parts(text, false) {
            Some(items) => if items.len() == 4 {
                error_stands_once(items[3].1.as_str())
            } else {
                true
            },
            None => true,
        },
    }
}

impl JsonRpcMessage {
    /// The message as JSON.
    pub fn to_json(&self) -> (json: Json)
        ensures
            json@ == self@.json(),
    {
        match self {
            JsonRpcMessage::Request(request) => request.to_json(),
            JsonRpcMessage::Response(response) => response.to_json(),
            JsonRpcMessage::Notification(notification) => notification.to_json(),
        }
    }

    /// The message that JSON holds.
    pub fn from_json(json: &Json) -> (message: Option<JsonRpcMessage>)
        ensures
            optional_message_view(message) == MessageView::of_json(json@),
    {
        match JsonRpcRequest::from_json(json) {
            Some(request) => Some(JsonRpcMessage::Request(request)),
            None => match JsonRpcResponse::from_json(json) {
                Some(response) => Some(JsonRpcMessage::Response(response)),
                None => match JsonRpcNotification::from_json(json) {
                    Some(notification) => Some(JsonRpcMessage::Notification(notification)),
                    None => None,
                },
            },
        }
    }

    /// The message as text, on one line. There is none where a number in the message is not
    /// written as JSON writes numbers. Reading the text gives the message back.
    pub fn encode(&self) -> (text: Option<String>)
        ensures
            match text {
                Some(text) => json::json_text(self@.json()) == Some(text@),
                None => json::json_text(self@.json()) is None,
            },
            text is Some ==> json::on_one_line(text->0@),
            text is Some ==> text->0@.len() >= 2 && text->0@[0] == '{' && text->0@.last() == '}',
            self@.survives() ==> text is Some && MessageView::of_text(text->0@) == Some(
                self@.received(),
            ),
    {
        proof {
            if self@.survives() {
                message_json_survives(self@);
            }
        }
        let text: Option<String> = self.to_json().render();
        proof {
            if self@.survives() {
                message_is_read_from_its_text(self@, text->0@);
            }
        }
        text
    }

    /// The message that a text holds.
    pub fn decode(text: &str) -> (message: Option<JsonRpcMessage>)
        ensures
            optional_message_view(message) == MessageView::of_text(text@),
    {
        let json: Json = match Json::parse(text) {
            Some(json) => json,
            None => {
                return None;
            },
        };
        let members: Option<Vec<(String, String)>> = read_parts(text, true);
        let request: [&str; 4] = ["jsonrpc", "id", "method", "params"];
        let response: [&str; 4] = ["jsonrpc", "id", "result", "error"];
        let notification: [&str; 3] = ["jsonrpc", "method", "params"];
        proof {
            assert(request@[0] == "jsonrpc" && request@[1] == "id" && request@[2] == "method"
                && request@[3] == "params");
            assert(response@[0] == "jsonrpc" && response@[1] == "id" && response@[2] == "result"
                && response@[3] == "error");
            assert(notification@[0] == "jsonrpc" && notification@[1] == "method"
                && notification@[2] == "params");
        }
        if stand_once(&members, &request) {
            if let Some(request) = JsonRpcRequest::from_json(&json) {
                return Some(JsonRpcMessage::Request(request));
            }
        }
        if stand_once(&members, &response) && error_in_stands_once(text, &members) {
            if let Some(response) = JsonRpcResponse::from_json(&json) {
                return Some(JsonRpcMessage::Response(response));
            }
        }
        if stand_once(&members, &notification) {
            if let Some(notification) = JsonRpcNotification::from_json(&json) {
                return Some(JsonRpcMessage::Notification(notification));
            }
        }
        None
    }
}

} // verus!
