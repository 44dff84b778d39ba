//! Resources: what a server can do with them, and what is asked of it.
use crate::capability::Capability;
use crate::json;
use crate::json::{
    object, push_member, read_bool, read_optional_text, read_text, write_optional_text, Json,
    JsonView,
};
use vstd::prelude::*;

verus! {

/// What a server can do with resources.
#[derive(Debug, Clone, Copy)]
pub struct ResourceCapabilities {
    pub subscribe: bool,
    pub list_changed: bool,
}

/// Asks for the list of resources, from a cursor on.
#[derive(Debug)]
pub struct ListResourcesRequest {
    pub cursor: Option<String>,
}

/// Asks for a resource.
#[derive(Debug)]
pub struct ReadResourceRequest {
    pub uri: String,
}

/// The resources of a server.
#[derive(Debug)]
pub struct ResourceManager {
    pub capabilities: ResourceCapabilities,
}

impl ResourceManager {
    /// Resources with which the server can do this much.
    pub fn new(capabilities: ResourceCapabilities) -> (manager: ResourceManager)
        ensures
            manager.capabilities == capabilities,
    {
        ResourceManager { capabilities }
    }
}

/// A cursor as JSON: the parameters of every request for a list.
pub open spec fn cursor_json(cursor: Option<Seq<char>>) -> JsonView {
    JsonView::Object(Seq::empty().push(("cursor"@, json::text_or_null(cursor))))
}

/// The cursor that the parameters of a request for a list hold; nothing where they are no such
/// parameters.
pub open spec fn cursor_of_json(json: JsonView) -> Option<Option<Seq<char>>> {
    if json.is_record(1) {
        json::optional_text(json.field("cursor"@, 0, 1))
    } else {
        None
    }
}

/// A cursor is read from its own JSON.
pub proof fn cursor_is_read_from_its_json(cursor: Option<Seq<char>>)
    ensures
        cursor_of_json(cursor_json(cursor)) == Some(cursor),
{
    broadcast use json::lookup_push;

}

/// A cursor as JSON.
pub fn write_cursor(cursor: &Option<String>) -> (json: Json)
    ensures
        json@ == cursor_json(json::text_view(*cursor)),
{
    let mut members: Vec<(String, Json)> = Vec::new();
    push_member(&mut members, "cursor", write_optional_text(cursor));
    assert(json::members_view(members@) =~= cursor_json(json::text_view(*cursor))->Object_0);
    object(members)
}

/// The cursor that the parameters of a request for a list hold.
pub fn read_cursor(json: &Json) -> (cursor: Option<Option<String>>)
    ensures
        match cursor {
            Some(cursor) => cursor_of_json(json@) == Some(json::text_view(cursor)),
            None => cursor_of_json(json@) is None,
        },
{
    if json.is_record(1) {
        read_optional_text(json.field("cursor", 0, 1))
    } else {
        None
    }
}

impl ListResourcesRequest {
    /// The request's parameters as JSON.
    pub fn to_json(&self) -> (json: Json)
        ensures
            json@ == cursor_json(json::text_view(self.cursor)),
    {
        write_cursor(&self.cursor)
    }

    /// The request whose parameters JSON holds.
    pub fn from_json(json: &Json) -> (request: Option<ListResourcesRequest>)
        ensures
            match request {
                Some(request) => cursor_of_json(json@) == Some(json::text_view(request.cursor)),
                None => cursor_of_json(json@) is None,
            },
    {
        match read_cursor(json) {
            Some(cursor) => Some(ListResourcesRequest { cursor }),
            None => None,
        }
    }
}

/// The parameters of a request for a resource as JSON.
pub open spec fn uri_json(uri: Seq<char>) -> JsonView {
    JsonView::Object(Seq::empty().push(("uri"@, JsonView::Str(uri))))
}

/// The uri that the parameters of a request for a resource hold.
pub open spec fn uri_of_json(json: JsonView) -> Option<Seq<char>> {
    json::required_text(json.field("uri"@, 0, 1))
}

/// A uri is read from its own JSON.
pub proof fn uri_is_read_from_its_json(uri: Seq<char>)
    ensures
        uri_of_json(uri_json(uri)) == Some(uri),
{
    broadcast use json::lookup_push;

}

impl ReadResourceRequest {
    /// The request's parameters as JSON.
    pub fn to_json(&self) -> (json: Json)
        ensures
            json@ == uri_json(self.uri@),
    {
        let mut members: Vec<(String, Json)> = Vec::new();
        push_member(&mut members, "uri", Json::string(self.uri.as_str()));
        assert(json::members_view(members@) =~= uri_json(self.uri@)->Object_0);
        object(members)
    }

    /// The request whose parameters JSON holds.
    pub fn from_json(json: &Json) -> (request: Option<ReadResourceRequest>)
        ensures
            match request {
                Some(request) => uri_of_json(json@) == Some(request.uri@),
                None => uri_of_json(json@) is None,
            },
    {
        match read_text(json.field("uri", 0, 1)) {
            Some(uri) => Some(ReadResourceRequest { uri }),
            None => None,
        }
    }
}

impl Capability for ResourceCapabilities {
    open spec fn json(self) -> JsonView {
        JsonView::Object(
            Seq::empty()
                .push(("subscribe"@, JsonView::Bool(self.subscribe)))
                .push(("list_changed"@, JsonView::Bool(self.list_changed))),
        )
    }

    open spec fn of_json(json: JsonView) -> Option<ResourceCapabilities> {
        match (
            json::required_bool(json.field("subscribe"@, 0, 2)),
            json::required_bool(json.field("list_changed"@, 1, 2)),
        ) {
            (Some(subscribe), Some(list_changed)) => Some(
                ResourceCapabilities { subscribe, list_changed },
            ),
            _ => None,
        }
    }

    proof fn is_read_from_its_json(self) {
        broadcast use json::lookup_push;

        reveal_strlit("subscribe");
        reveal_strlit("list_changed");
        assert("subscribe"@.len() != "list_changed"@.len());
    }

    fn to_json(&self) -> (json: Json) {
        let mut members: Vec<(String, Json)> = Vec::new();
        push_member(&mut members, "subscribe", Json::Bool(self.subscribe));
        push_member(&mut members, "list_changed", Json::Bool(self.list_changed));
        assert(json::members_view(members@) =~= self.json()->Object_0);
        object(members)
    }

    fn from_json(json: &Json) -> (capabilities: Option<ResourceCapabilities>) {
        let subscribe: Option<bool> = read_bool(json.field("subscribe", 0, 2));
        let list_changed: Option<bool> = read_bool(json.field("list_changed", 1, 2));
        match (subscribe, list_changed) {
            (Some(subscribe), Some(list_changed)) => Some(
                ResourceCapabilities { subscribe, list_changed },
            ),
            _ => None,
        }
    }
}

} // verus!
