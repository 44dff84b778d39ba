//! Prompts: what a server can do with them, and what is asked of it.
use crate::capability::Capability;
use crate::json;
use crate::json::{
    object, push_member, read_bool, write_optional_value, Json, JsonView,
};
use crate::resource;
use crate::resource::write_cursor;
use vstd::prelude::*;

verus! {

/// What a server can do with prompts.
#[derive(Debug, Clone, Copy)]
pub struct PromptCapabilities {
    pub list_changed: bool,
}

/// Asks for the list of prompts, from a cursor on.
#[derive(Debug)]
pub struct ListPromptsRequest {
    pub cursor: Option<String>,
}

/// Asks for a prompt.
#[derive(Debug)]
pub struct GetPromptRequest {
    pub name: String,
    pub arguments: Option<Json>,
}

/// The parameters of a request for a prompt, as JSON.
pub open spec fn prompt_json(name: Seq<char>, arguments: Option<JsonView>) -> JsonView {
    JsonView::Object(
        Seq::empty().push(("name"@, JsonView::Str(name))).push(
            ("arguments"@, json::or_null(arguments)),
        ),
    )
}

impl ListPromptsRequest {
    /// The request's parameters as JSON.
    pub fn to_json(&self) -> (json: Json)
        ensures
            json@ == resource::cursor_json(json::text_view(self.cursor)),
    {
        write_cursor(&self.cursor)
    }
}

impl GetPromptRequest {
    /// The request's parameters as JSON.
    pub fn to_json(&self) -> (json: Json)
        ensures
            json@ == prompt_json(self.name@, json::optional_view(self.arguments)),
    {
        let mut members: Vec<(String, Json)> = Vec::new();
        push_member(&mut members, "name", Json::string(self.name.as_str()));
        push_member(&mut members, "arguments", write_optional_value(&self.arguments));
        assert(json::members_view(members@) =~= prompt_json(
            self.name@,
            json::optional_view(self.arguments),
        )->Object_0);
        object(members)
    }
}

impl Capability for PromptCapabilities {
    open spec fn json(self) -> JsonView {
        JsonView::Object(
            Seq::empty().push(("list_changed"@, JsonView::Bool(self.list_changed))),
        )
    }

    open spec fn of_json(json: JsonView) -> Option<PromptCapabilities> {
        match json::required_bool(json.field("list_changed"@, 0, 1)) {
            Some(list_changed) => Some(PromptCapabilities { list_changed }),
            None => None,
        }
    }

    proof fn is_read_from_its_json(self) {
        broadcast use json::lookup_push;

    }

    fn to_json(&self) -> (json: Json) {
        let mut members: Vec<(String, Json)> = Vec::new();
        push_member(&mut members, "list_changed", Json::Bool(self.list_changed));
        assert(json::members_view(members@) =~= self.json()->Object_0);
        object(members)
    }

    fn from_json(json: &Json) -> (capabilities: Option<PromptCapabilities>) {
        match read_bool(json.field("list_changed", 0, 1)) {
            Some(list_changed) => Some(PromptCapabilities { list_changed }),
            None => None,
        }
    }
}

} // verus!
