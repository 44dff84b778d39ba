//! The three kinds of JSON-RPC message, each with the JSON that it is written as and read from.
use crate::json;
use crate::json::{
    object, push_member, read_optional_value, read_text, write_optional_value, Json, JsonView,
};
use vstd::prelude::*;

verus! {

/// A request: it has an id, under which its response comes back.
#[derive(Debug)]
pub struct JsonRpcRequest {
    pub jsonrpc: String,
    pub id: u64,
    pub method: String,
    pub params: Option<Json>,
}

/// The response to the request of the same id.
#[derive(Debug)]
pub struct JsonRpcResponse {
    pub jsonrpc: String,
    pub id: u64,
    pub result: Option<Json>,
    pub error: Option<JsonRpcError>,
}

/// A notification: it is not answered.
#[derive(Debug)]
pub struct JsonRpcNotification {
    pub jsonrpc: String,
    pub method: String,
    pub params: Option<Json>,
}

/// The error that a response carries.
#[derive(Debug)]
pub struct JsonRpcError {
    pub code: i32,
    pub message: String,
    pub data: Option<Json>,
}

/// What a [`JsonRpcRequest`] holds.
pub struct RequestView {
    pub jsonrpc: Seq<char>,
    pub id: u64,
    pub method: Seq<char>,
    pub params: Option<JsonView>,
}

/// What a [`JsonRpcResponse`] holds.
pub struct ResponseView {
    pub jsonrpc: Seq<char>,
    pub id: u64,
    pub result: Option<JsonView>,
    pub error: Option<ErrorView>,
}

/// What a [`JsonRpcNotification`] holds.
pub struct NotificationView {
    pub jsonrpc: Seq<char>,
    pub method: Seq<char>,
    pub params: Option<JsonView>,
}

/// What a [`JsonRpcError`] holds.
pub struct ErrorView {
    pub code: i32,
    pub message: Seq<char>,
    pub data: Option<JsonView>,
}

impl View for JsonRpcRequest {
    type V = RequestView;

    open spec fn view(&self) -> RequestView {
        RequestView {
            jsonrpc: self.jsonrpc@,
            id: self.id,
            method: self.method@,
            params: json::optional_view(self.params),
        }
    }
}

impl View for JsonRpcError {
    type V = ErrorView;

    open spec fn view(&self) -> ErrorView {
        ErrorView {
            code: self.code,
            message: self.message@,
            data: json::optional_view(self.data),
        }
    }
}

/// What an optional error holds.
pub open spec fn optional_error_view(error: Option<JsonRpcError>) -> Option<ErrorView> {
    match error {
        Some(error) => Some(error@),
        None => None,
    }
}

impl View for JsonRpcResponse {
    type V = ResponseView;

    open spec fn view(&self) -> ResponseView {
        ResponseView {
            jsonrpc: self.jsonrpc@,
            id: self.id,
            result: json::optional_view(self.result),
            error: optional_error_view(self.error),
        }
    }
}

impl View for JsonRpcNotification {
    type V = NotificationView;

    open spec fn view(&self) -> NotificationView {
        NotificationView {
            jsonrpc: self.jsonrpc@,
            method: self.method@,
            params: json::optional_view(self.params),
        }
    }
}

/// An integer as a JSON number.
pub open spec fn integer_json(n: i32) -> JsonView {
    if n >= 0 {
        JsonView::PosInt(n as u64)
    } else {
        JsonView::NegInt(n as i64)
    }
}

/// The integer that a field must hold.
pub open spec fn required_i32(field: Option<JsonView>) -> Option<i32> {
    match field {
        Some(JsonView::PosInt(n)) => if n <= i32::MAX {
            Some(n as i32)
        } else {
            None
        },
        Some(JsonView::NegInt(n)) => if i32::MIN <= n <= i32::MAX {
            Some(n as i32)
        } else {
            None
        },
        _ => None,
    }
}

/// The id that a field must hold.
pub open spec fn required_id(field: Option<JsonView>) -> Option<u64> {
    match field {
        Some(JsonView::PosInt(n)) => Some(n),
        Some(JsonView::NegInt(n)) => if n >= 0 {
            Some(n as u64)
        } else {
            None
        },
        _ => None,
    }
}

impl RequestView {
    /// The request as JSON.
    pub open spec fn json(self) -> JsonView {
        JsonView::Object(
            Seq::empty()
                .push(("jsonrpc"@, JsonView::Str(self.jsonrpc)))
                .push(("id"@, JsonView::PosInt(self.id)))
                .push(("method"@, JsonView::Str(self.method)))
                .push(("params"@, json::or_null(self.params))),
        )
    }

    /// The request that JSON holds.
    pub open spec fn of_json(json: JsonView) -> Option<RequestView> {
        match (
            json::required_text(json.field("jsonrpc"@, 0, 4)),
            required_id(json.field("id"@, 1, 4)),
            json::required_text(json.field("method"@, 2, 4)),
        ) {
            (Some(jsonrpc), Some(id), Some(method)) => Some(
                RequestView {
                    jsonrpc,
                    id,
                    method,
                    params: json::optional_value(json.field("params"@, 3, 4)),
                },
            ),
            _ => None,
        }
    }

    /// The request as the other side reads it: parameters that are null are none.
    pub open spec fn received(self) -> RequestView {
        RequestView { params: json::optional_value(self.params), ..self }
    }
}

impl ErrorView {
    /// The error as JSON.
    pub open spec fn json(self) -> JsonView {
        JsonView::Object(
            Seq::empty()
                .push(("code"@, integer_json(self.code)))
                .push(("message"@, JsonView::Str(self.message)))
                .push(("data"@, json::or_null(self.data))),
        )
    }

    /// The error that JSON holds.
    pub open spec fn of_json(json: JsonView) -> Option<ErrorView> {
        match (
            required_i32(json.field("code"@, 0, 3)),
            json::required_text(json.field("message"@, 1, 3)),
        ) {
            (Some(code), Some(message)) => Some(
                ErrorView { code, message, data: json::optional_value(json.field("data"@, 2, 3)) },
            ),
            _ => None,
        }
    }

    /// The error as the other side reads it.
    pub open spec fn received(self) -> ErrorView {
        ErrorView { data: json::optional_value(self.data), ..self }
    }

    /// The error that a field may hold: absent and null are none, anything else but an error is
    /// wrong.
    pub open spec fn of_field(field: Option<JsonView>) -> Option<Option<ErrorView>> {
        match json::optional_value(field) {
            None => Some(None),
            Some(json) => match ErrorView::of_json(json) {
                Some(error) => Some(Some(error)),
                None => None,
            },
        }
    }
}

impl ResponseView {
    /// The response as JSON.
    pub open spec fn json(self) -> JsonView {
        JsonView::Object(
            Seq::empty()
                .push(("jsonrpc"@, JsonView::Str(self.jsonrpc)))
                .push(("id"@, JsonView::PosInt(self.id)))
                .push(("result"@, json::or_null(self.result)))
                .push((
                    "error"@,
                    match self.error {
                        Some(error) => error.json(),
                        None => JsonView::Null,
                    },
                )),
        )
    }

    /// The response that JSON holds.
    pub open spec fn of_json(json: JsonView) -> Option<ResponseView> {
        match (
            json::required_text(json.field("jsonrpc"@, 0, 4)),
            required_id(json.field("id"@, 1, 4)),
            ErrorView::of_field(json.field("error"@, 3, 4)),
        ) {
            (Some(jsonrpc), Some(id), Some(error)) => Some(
                ResponseView {
                    jsonrpc,
                    id,
                    result: json::optional_value(json.field("result"@, 2, 4)),
                    error,
                },
            ),
            _ => None,
        }
    }

    /// The response as the other side reads it: a result that is null is none.
    pub open spec fn received(self) -> ResponseView {
        ResponseView {
            result: json::optional_value(self.result),
            error: match self.error {
                Some(error) => Some(error.received()),
                None => None,
            },
            ..self
        }
    }
}

impl NotificationView {
    /// The notification as JSON.
    pub open spec fn json(self) -> JsonView {
        JsonView::Object(
            Seq::empty()
                .push(("jsonrpc"@, JsonView::Str(self.jsonrpc)))
                .push(("method"@, JsonView::Str(self.method)))
                .push(("params"@, json::or_null(self.params))),
        )
    }

    /// The notification that JSON holds.
    pub open spec fn of_json(json: JsonView) -> Option<NotificationView> {
        match (
            json::required_text(json.field("jsonrpc"@, 0, 3)),
            json::required_text(json.field("method"@, 1, 3)),
        ) {
            (Some(jsonrpc), Some(method)) => Some(
                NotificationView {
                    jsonrpc,
                    method,
                    params: json::optional_value(json.field("params"@, 2, 3)),
                },
            ),
            _ => None,
        }
    }

    /// The notification as the other side reads it: parameters that are null are none.
    pub open spec fn received(self) -> NotificationView {
        NotificationView { params: json::optional_value(self.params), ..self }
    }
}

/// Reads the id that a field must hold.
fn read_id(field: Option<&Json>) -> (id: Option<u64>)
    ensures
        id == required_id(json::optional_ref_view(field)),
{
    match field {
        Some(Json::PosInt(n)) => Some(*n),
        Some(Json::NegInt(n)) => if *n >= 0 {
            Some(*n as u64)
        } else {
            None
        },
        _ => None,
    }
}

/// Reads the integer that a field must hold.
fn read_i32(field: Option<&Json>) -> (n: Option<i32>)
    ensures
        n == required_i32(json::optional_ref_view(field)),
{
    match field {
        Some(Json::PosInt(n)) => if *n <= i32::MAX as u64 {
            Some(*n as i32)
        } else {
            None
        },
        Some(Json::NegInt(n)) => if i32::MIN as i64 <= *n && *n <= i32::MAX as i64 {
            Some(*n as i32)
        } else {
            None
        },
        _ => None,
    }
}

impl JsonRpcRequest {
    /// The request as JSON.
    pub fn to_json(&self) -> (json: Json)
        ensures
            json@ == self@.json(),
    {
        let mut members: Vec<(String, Json)> = Vec::new();
        push_member(&mut members, "jsonrpc", Json::string(self.jsonrpc.as_str()));
        push_member(&mut members, "id", Json::PosInt(self.id));
        push_member(&mut members, "method", Json::string(self.method.as_str()));
        push_member(&mut members, "params", write_optional_value(&self.params));
        assert(json::members_view(members@) =~= self@.json()->Object_0);
        object(members)
    }

    /// The request that JSON holds.
    pub fn from_json(json: &Json) -> (request: Option<JsonRpcRequest>)
        ensures
            match request {
                Some(request) => RequestView::of_json(json@) == Some(request@),
                None => RequestView::of_json(json@) is None,
            },
    {
        let jsonrpc: Option<String> = read_text(json.field("jsonrpc", 0, 4));
        let id: Option<u64> = read_id(json.field("id", 1, 4));
        let method: Option<String> = read_text(json.field("method", 2, 4));
        match (jsonrpc, id, method) {
            (Some(jsonrpc), Some(id), Some(method)) => Some(
                JsonRpcRequest {
                    jsonrpc,
                    id,
                    method,
                    params: read_optional_value(json.field("params", 3, 4)),
                },
            ),
            _ => None,
        }
    }
}

impl JsonRpcError {
    /// The error as JSON.
    pub fn to_json(&self) -> (json: Json)
        ensures
            json@ == self@.json(),
    {
        let code: Json = if self.code >= 0 {
            Json::PosInt(self.code as u64)
        } else {
            Json::NegInt(self.code as i64)
        };
        let mut members: Vec<(String, Json)> = Vec::new();
        push_member(&mut members, "code", code);
        push_member(&mut members, "message", Json::string(self.message.as_str()));
        push_member(&mut members, "data", write_optional_value(&self.data));
        assert(json::members_view(members@) =~= self@.json()->Object_0);
        object(members)
    }

    /// The error that JSON holds.
    pub fn from_json(json: &Json) -> (error: Option<JsonRpcError>)
        ensures
            match error {
                Some(error) => ErrorView::of_json(json@) == Some(error@),
                None => ErrorView::of_json(json@) is None,
            },
    {
        let code: Option<i32> = read_i32(json.field("code", 0, 3));
        let message: Option<String> = read_text(json.field("message", 1, 3));
        match (code, message) {
            (Some(code), Some(message)) => Some(
                JsonRpcError {
                    code,
                    message,
                    data: read_optional_value(json.field("data", 2, 3)),
                },
            ),
            _ => None,
        }
    }

    /// Reads the error that a field may hold.
    fn from_field(field: Option<&Json>) -> (error: Option<Option<JsonRpcError>>)
        ensures
            match error {
                Some(error) => ErrorView::of_field(json::optional_ref_view(field)) == Some(
                    optional_error_view(error),
                ),
                None => ErrorView::of_field(json::optional_ref_view(field)) is None,
            },
    {
        match field {
            None => Some(None),
            Some(Json::Null) => Some(None),
            Some(json) => match JsonRpcError::from_json(json) {
                Some(error) => Some(Some(error)),
                None => None,
            },
        }
    }
}

impl JsonRpcResponse {
    /// The response as JSON.
    pub fn to_json(&self) -> (json: Json)
        ensures
            json@ == self@.json(),
    {
        let error: Json = match &self.error {
            Some(error) => error.to_json(),
            None => Json::Null,
        };
        let mut members: Vec<(String, Json)> = Vec::new();
        push_member(&mut members, "jsonrpc", Json::string(self.jsonrpc.as_str()));
        push_member(&mut members, "id", Json::PosInt(self.id));
        push_member(&mut members, "result", write_optional_value(&self.result));
        push_member(&mut members, "error", error);
        assert(json::members_view(members@) =~= self@.json()->Object_0);
        object(members)
    }

    /// The response that JSON holds.
    pub fn from_json(json: &Json) -> (response: Option<JsonRpcResponse>)
        ensures
            match response {
                Some(response) => ResponseView::of_json(json@) == Some(response@),
                None => ResponseView::of_json(json@) is None,
            },
    {
        let jsonrpc: Option<String> = read_text(json.field("jsonrpc", 0, 4));
        let id: Option<u64> = read_id(json.field("id", 1, 4));
        let error: Option<Option<JsonRpcError>> = JsonRpcError::from_field(
            json.field("error", 3, 4),
        );
        match (jsonrpc, id, error) {
            (Some(jsonrpc), Some(id), Some(error)) => Some(
                JsonRpcResponse {
                    jsonrpc,
                    id,
                    result: read_optional_value(json.field("result", 2, 4)),
                    error,
                },
            ),
            _ => None,
        }
    }
}

impl JsonRpcNotification {
    /// The notification as JSON.
    pub fn to_json(&self) -> (json: Json)
        ensures
            json@ == self@.json(),
    {
        let mut members: Vec<(String, Json)> = Vec::new();
        push_member(&mut members, "jsonrpc", Json::string(self.jsonrpc.as_str()));
        push_member(&mut members, "method", Json::string(self.method.as_str()));
        push_member(&mut members, "params", write_optional_value(&self.params));
        assert(json::members_view(members@) =~= self@.json()->Object_0);
        object(members)
    }

    /// The notification that JSON holds.
    pub fn from_json(json: &Json) -> (notification: Option<JsonRpcNotification>)
        ensures
            match notification {
                Some(notification) => NotificationView::of_json(json@) == Some(notification@),
                None => NotificationView::of_json(json@) is None,
            },
    {
        let jsonrpc: Option<String> = read_text(json.field("jsonrpc", 0, 3));
        let method: Option<String> = read_text(json.field("method", 1, 3));
        match (jsonrpc, method) {
            (Some(jsonrpc), Some(method)) => Some(
                JsonRpcNotification {
                    jsonrpc,
                    method,
                    params: read_optional_value(json.field("params", 2, 3)),
                },
            ),
            _ => None,
        }
    }
}

/// The names of the members differ from one another.
pub(crate) proof fn names_differ()
    ensures
        "jsonrpc"@ != "id"@,
        "jsonrpc"@ != "method"@,
        "jsonrpc"@ != "params"@,
        "jsonrpc"@ != "result"@,
        "jsonrpc"@ != "error"@,
        "id"@ != "method"@,
        "id"@ != "params"@,
        "id"@ != "result"@,
        "id"@ != "error"@,
        "method"@ != "params"@,
        "method"@ != "result"@,
        "method"@ != "error"@,
        "result"@ != "error"@,
        "code"@ != "message"@,
        "code"@ != "data"@,
        "message"@ != "data"@,
{
    reveal_strlit("jsonrpc");
    reveal_strlit("id");
    reveal_strlit("method");
    reveal_strlit("params");
    reveal_strlit("result");
    reveal_strlit("error");
    reveal_strlit("code");
    reveal_strlit("message");
    reveal_strlit("data");
    assert("jsonrpc"@.len() == 7);
    assert("id"@.len() == 2);
    assert("error"@.len() == 5);
    assert("method"@[0] != "params"@[0]);
    assert("method"@[0] != "result"@[0]);
    assert("code"@[0] != "data"@[0]);
}

/// A request is read from its own JSON as that request.
pub proof fn request_is_read_from_its_json(request: RequestView)
    ensures
        RequestView::of_json(request.json()) == Some(request.received()),
{
    broadcast use json::lookup_push;

    names_differ();
    let json = request.json();
    assert(json.field("jsonrpc"@, 0, 4) == Some(JsonView::Str(request.jsonrpc)));
    assert(json.field("id"@, 1, 4) == Some(JsonView::PosInt(request.id)));
    assert(json.field("method"@, 2, 4) == Some(JsonView::Str(request.method)));
    assert(json.field("params"@, 3, 4) == Some(json::or_null(request.params)));
}

/// An error is read from its own JSON as that error.
pub proof fn error_is_read_from_its_json(error: ErrorView)
    ensures
        ErrorView::of_json(error.json()) == Some(error.received()),
{
    broadcast use json::lookup_push;

    names_differ();
    let json = error.json();
    assert(json.field("code"@, 0, 3) == Some(integer_json(error.code)));
    assert(json.field("message"@, 1, 3) == Some(JsonView::Str(error.message)));
    assert(json.field("data"@, 2, 3) == Some(json::or_null(error.data)));
}

/// A response is read from its own JSON as that response, and cannot be taken for a request.
pub proof fn response_is_read_from_its_json(response: ResponseView)
    ensures
        ResponseView::of_json(response.json()) == Some(response.received()),
        RequestView::of_json(response.json()) is None,
{
    broadcast use json::lookup_push;

    names_differ();
    let json = response.json();
    assert(json.field("jsonrpc"@, 0, 4) == Some(JsonView::Str(response.jsonrpc)));
    assert(json.field("id"@, 1, 4) == Some(JsonView::PosInt(response.id)));
    assert(json.field("result"@, 2, 4) == Some(json::or_null(response.result)));
    assert(json.field("method"@, 2, 4) is None);
    if response.error is Some {
        error_is_read_from_its_json(response.error->0);
        assert(json.field("error"@, 3, 4) == Some(response.error->0.json()));
    } else {
        assert(json.field("error"@, 3, 4) == Some(JsonView::Null));
    }
}

/// A notification is read from its own JSON as that notification, and cannot be taken for a
/// request or a response.
pub proof fn notification_is_read_from_its_json(notification: NotificationView)
    ensures
        NotificationView::of_json(notification.json()) == Some(notification.received()),
        RequestView::of_json(notification.json()) is None,
        ResponseView::of_json(notification.json()) is None,
{
    broadcast use json::lookup_push;

    names_differ();
    let json = notification.json();
    assert(json.field("jsonrpc"@, 0, 3) == Some(JsonView::Str(notification.jsonrpc)));
    assert(json.field("method"@, 1, 3) == Some(JsonView::Str(notification.method)));
    assert(json.field("params"@, 2, 3) == Some(json::or_null(notification.params)));
    assert(json.field("id"@, 1, 4) is None);
}

} // verus!
