//! Tools: the table of those that a server offers, and what is asked and told of them.
use crate::capability::Capability;
use crate::error::{McpError, McpErrorView};
use crate::json;
use crate::json::{
    object, push_member, read_bool, read_optional_text, read_text, write_optional_text, Json,
    JsonView,
};
use crate::registry::Registry;
use crate::resource;
use crate::resource::{read_cursor, write_cursor};
use crate::text::same_text;
use vstd::prelude::*;
use vstd::string::*;

verus! {

/// What a tool is and takes.
#[derive(Debug)]
pub struct Tool {
    pub name: String,
    pub description: String,
    pub input_schema: Json,
}

/// A piece of what a tool gives back.
#[derive(Debug)]
pub enum ToolContent {
    Text { text: String },
    Image { data: String, mime_type: String },
    Resource { resource: ResourceContent },
}

/// A resource that a tool gives back.
#[derive(Debug)]
pub struct ResourceContent {
    pub uri: String,
    pub mime_type: Option<String>,
    pub text: Option<String>,
}

/// What a tool gives back.
#[derive(Debug)]
pub struct ToolResult {
    pub content: Vec<ToolContent>,
    pub is_error: bool,
}

/// Asks for the list of tools, from a cursor on.
#[derive(Debug)]
pub struct ListToolsRequest {
    pub cursor: Option<String>,
}

/// The list of tools.
#[derive(Debug)]
pub struct ListToolsResponse {
    pub tools: Vec<Tool>,
    pub next_cursor: Option<String>,
}

/// Asks for a tool to be run.
#[derive(Debug)]
pub struct CallToolRequest {
    pub name: String,
    pub arguments: Json,
}

/// What a server can do with tools.
#[derive(Debug, Clone, Copy)]
pub struct ToolCapabilities {
    pub list_changed: bool,
}

/// What a [`Tool`] says.
pub struct ToolView {
    pub name: Seq<char>,
    pub description: Seq<char>,
    pub input_schema: JsonView,
}

impl View for Tool {
    type V = ToolView;

    open spec fn view(&self) -> ToolView {
        ToolView {
            name: self.name@,
            description: self.description@,
            input_schema: self.input_schema@,
        }
    }
}

/// What a [`ToolContent`] holds.
#[allow(inconsistent_fields)]
pub enum ToolContentView {
    Text { text: Seq<char> },
    Image { data: Seq<char>, mime_type: Seq<char> },
    Resource { uri: Seq<char>, mime_type: Option<Seq<char>>, text: Option<Seq<char>> },
}

impl View for ToolContent {
    type V = ToolContentView;

    open spec fn view(&self) -> ToolContentView {
        match self {
            ToolContent::Text { text } => ToolContentView::Text { text: text@ },
            ToolContent::Image { data, mime_type } => ToolContentView::Image {
                data: data@,
                mime_type: mime_type@,
            },
            ToolContent::Resource { resource } => ToolContentView::Resource {
                uri: resource.uri@,
                mime_type: json::text_view(resource.mime_type),
                text: json::text_view(resource.text),
            },
        }
    }
}

/// What a [`ToolResult`] holds.
#[verifier::ext_equal]
pub struct ToolResultView {
    pub content: Seq<ToolContentView>,
    pub is_error: bool,
}

impl View for ToolResult {
    type V = ToolResultView;

    open spec fn view(&self) -> ToolResultView {
        ToolResultView {
            content: Seq::new(self.content@.len(), |i: int| self.content@[i]@),
            is_error: self.is_error,
        }
    }
}

/// What a list of tools says.
pub open spec fn tools_view(tools: Seq<Tool>) -> Seq<ToolView> {
    Seq::new(tools.len(), |i: int| tools[i]@)
}

impl ToolView {
    /// The tool as JSON.
    pub open spec fn json(self) -> JsonView {
        JsonView::Object(
            Seq::empty()
                .push(("name"@, JsonView::Str(self.name)))
                .push(("description"@, JsonView::Str(self.description)))
                .push(("input_schema"@, self.input_schema)),
        )
    }
}

impl ToolContentView {
    /// The content as JSON, tagged with its kind.
    pub open spec fn json(self) -> JsonView {
        match self {
            ToolContentView::Text { text } => JsonView::Object(
                Seq::empty()
                    .push(("type"@, JsonView::Str("text"@)))
                    .push(("text"@, JsonView::Str(text))),
            ),
            ToolContentView::Image { data, mime_type } => JsonView::Object(
                Seq::empty()
                    .push(("type"@, JsonView::Str("image"@)))
                    .push(("data"@, JsonView::Str(data)))
                    .push(("mime_type"@, JsonView::Str(mime_type))),
            ),
            ToolContentView::Resource { uri, mime_type, text } => JsonView::Object(
                Seq::empty()
                    .push(("type"@, JsonView::Str("resource"@)))
                    .push(("resource"@, resource_content_json(uri, mime_type, text))),
            ),
        }
    }
}

/// A resource that a tool gives back, as JSON.
pub open spec fn resource_content_json(
    uri: Seq<char>,
    mime_type: Option<Seq<char>>,
    text: Option<Seq<char>>,
) -> JsonView {
    JsonView::Object(
        Seq::empty()
            .push(("uri"@, JsonView::Str(uri)))
            .push(("mime_type"@, json::text_or_null(mime_type)))
            .push(("text"@, json::text_or_null(text))),
    )
}

impl ToolResultView {
    /// What a tool gives back, as JSON.
    pub open spec fn json(self) -> JsonView {
        JsonView::Object(
            Seq::empty()
                .push(
                    (
                        "content"@,
                        JsonView::Array(
                            Seq::new(self.content.len(), |i: int| self.content[i].json()),
                        ),
                    ),
                )
                .push(("is_error"@, JsonView::Bool(self.is_error))),
        )
    }

    /// What is given back for a tool that failed: the error in words.
    pub open spec fn of_error(error: McpErrorView) -> ToolResultView {
        ToolResultView {
            content: Seq::empty().push(ToolContentView::Text { text: error.message() }),
            is_error: true,
        }
    }
}

/// A resource that a tool gives back, from a field that must hold it.
pub open spec fn resource_content_of_field(field: Option<JsonView>) -> Option<ToolContentView> {
    match field {
        Some(json) => if json.is_record(3) {
            match (
                json::required_text(json.field("uri"@, 0, 3)),
                json::optional_text(json.field("mime_type"@, 1, 3)),
                json::optional_text(json.field("text"@, 2, 3)),
            ) {
                (Some(uri), Some(mime_type), Some(text)) => Some(
                    ToolContentView::Resource { uri, mime_type, text },
                ),
                _ => None,
            }
        } else {
            None
        },
        None => None,
    }
}

/// The kind of a content: it stands first where the content is written as an array.
pub open spec fn content_kind(json: JsonView) -> Option<Seq<char>> {
    match json {
        JsonView::Object(members) => json::required_text(json::lookup(members, "type"@)),
        JsonView::Array(items) => if items.len() > 0 {
            json::required_text(Some(items[0]))
        } else {
            None
        },
        _ => None,
    }
}

impl ToolContentView {
    /// The content that JSON holds, by its kind.
    pub open spec fn of_json(json: JsonView) -> Option<ToolContentView> {
        if content_kind(json) == Some("text"@) {
            match json::required_text(json.field("text"@, 1, 2)) {
                Some(text) => Some(ToolContentView::Text { text }),
                None => None,
            }
        } else if content_kind(json) == Some("image"@) {
            match (
                json::required_text(json.field("data"@, 1, 3)),
                json::required_text(json.field("mime_type"@, 2, 3)),
            ) {
                (Some(data), Some(mime_type)) => Some(ToolContentView::Image { data, mime_type }),
                _ => None,
            }
        } else if content_kind(json) == Some("resource"@) {
            resource_content_of_field(json.field("resource"@, 1, 2))
        } else {
            None
        }
    }
}

/// A list of contents, each from its JSON; nothing where one of them is none.
pub open spec fn contents_of_json(items: Seq<JsonView>) -> Option<Seq<ToolContentView>> {
    if forall|i: int|
        0 <= i < items.len() ==> ToolContentView::of_json(#[trigger] items[i]) is Some {
        Some(Seq::new(items.len(), |i: int| ToolContentView::of_json(items[i])->0))
    } else {
        None
    }
}

impl ToolResultView {
    /// What a tool gave back, from JSON.
    pub open spec fn of_json(json: JsonView) -> Option<ToolResultView> {
        match (json.field("content"@, 0, 2), json::required_bool(json.field("is_error"@, 1, 2))) {
            (Some(JsonView::Array(items)), Some(is_error)) => match contents_of_json(items) {
                Some(content) => Some(ToolResultView { content, is_error }),
                None => None,
            },
            _ => None,
        }
    }
}

/// The kinds of content, and the names of their fields, are different texts.
pub(crate) proof fn content_names_differ()
    ensures
        "text"@ != "image"@,
        "text"@ != "resource"@,
        "image"@ != "resource"@,
        "type"@ != "text"@,
        "type"@ != "data"@,
        "type"@ != "mime_type"@,
        "type"@ != "resource"@,
        "data"@ != "mime_type"@,
        "uri"@ != "mime_type"@,
        "uri"@ != "text"@,
        "mime_type"@ != "text"@,
        "content"@ != "is_error"@,
{
    reveal_strlit("text");
    reveal_strlit("image");
    reveal_strlit("resource");
    reveal_strlit("type");
    reveal_strlit("data");
    reveal_strlit("mime_type");
    reveal_strlit("uri");
    reveal_strlit("content");
    reveal_strlit("is_error");
    assert("text"@.len() != "image"@.len());
    assert("text"@.len() != "resource"@.len());
    assert("image"@.len() != "resource"@.len());
    assert("type"@[1] != "text"@[1]);
    assert("type"@[0] != "data"@[0]);
    assert("type"@.len() != "mime_type"@.len());
    assert("type"@.len() != "resource"@.len());
    assert("data"@.len() != "mime_type"@.len());
    assert("uri"@.len() != "mime_type"@.len());
    assert("uri"@.len() != "text"@.len());
    assert("mime_type"@.len() != "text"@.len());
    assert("content"@.len() != "is_error"@.len());
}

/// A content is read from its own JSON.
pub proof fn content_is_read_from_its_json(content: ToolContentView)
    ensures
        ToolContentView::of_json(content.json()) == Some(content),
{
    broadcast use json::lookup_push;

    content_names_differ();
}

/// What a tool gave back is read from its own JSON.
pub proof fn result_is_read_from_its_json(result: ToolResultView)
    ensures
        ToolResultView::of_json(result.json()) == Some(result),
{
    broadcast use json::lookup_push;

    content_names_differ();
    let items = Seq::new(result.content.len(), |i: int| result.content[i].json());
    assert forall|i: int| 0 <= i < items.len() implies ToolContentView::of_json(
        #[trigger] items[i],
    ) == Some(result.content[i]) by {
        content_is_read_from_its_json(result.content[i]);
    }
    assert(contents_of_json(items)->0 =~= result.content);
}

/// A list of tools as JSON.
pub open spec fn list_json(tools: Seq<ToolView>, next_cursor: Option<Seq<char>>) -> JsonView {
    JsonView::Object(
        Seq::empty()
            .push(("tools"@, JsonView::Array(Seq::new(tools.len(), |i: int| tools[i].json()))))
            .push(("next_cursor"@, json::text_or_null(next_cursor))),
    )
}

impl ToolView {
    /// The tool that JSON holds.
    pub open spec fn of_json(json: JsonView) -> Option<ToolView> {
        match (
            json::required_text(json.field("name"@, 0, 3)),
            json::required_text(json.field("description"@, 1, 3)),
            json.field("input_schema"@, 2, 3),
        ) {
            (Some(name), Some(description), Some(input_schema)) => Some(
                ToolView { name, description, input_schema },
            ),
            _ => None,
        }
    }
}

/// A list of tools, each from its JSON; nothing where one of them is none.
pub open spec fn tools_of_json(items: Seq<JsonView>) -> Option<Seq<ToolView>> {
    if forall|i: int| 0 <= i < items.len() ==> ToolView::of_json(#[trigger] items[i]) is Some {
        Some(Seq::new(items.len(), |i: int| ToolView::of_json(items[i])->0))
    } else {
        None
    }
}

/// The list of tools that JSON holds, and the cursor behind it.
pub open spec fn list_of_json(json: JsonView) -> Option<(Seq<ToolView>, Option<Seq<char>>)> {
    match (json.field("tools"@, 0, 2), json::optional_text(json.field("next_cursor"@, 1, 2))) {
        (Some(JsonView::Array(items)), Some(next_cursor)) => match tools_of_json(items) {
            Some(tools) => Some((tools, next_cursor)),
            None => None,
        },
        _ => None,
    }
}

/// A tool is read from its own JSON.
pub proof fn tool_is_read_from_its_json(tool: ToolView)
    ensures
        ToolView::of_json(tool.json()) == Some(tool),
{
    broadcast use json::lookup_push;

    reveal_strlit("name");
    reveal_strlit("description");
    reveal_strlit("input_schema");
    assert("name"@.len() != "description"@.len());
    assert("name"@.len() != "input_schema"@.len());
    assert("description"@.len() != "input_schema"@.len());
}

/// A list of tools is read from its own JSON.
pub proof fn list_is_read_from_its_json(tools: Seq<ToolView>, next_cursor: Option<Seq<char>>)
    ensures
        list_of_json(list_json(tools, next_cursor)) == Some((tools, next_cursor)),
{
    broadcast use json::lookup_push;

    reveal_strlit("tools");
    reveal_strlit("next_cursor");
    assert("tools"@.len() != "next_cursor"@.len());
    let items = Seq::new(tools.len(), |i: int| tools[i].json());
    assert forall|i: int| 0 <= i < items.len() implies ToolView::of_json(#[trigger] items[i])
        == Some(tools[i]) by {
        tool_is_read_from_its_json(tools[i]);
    }
    assert(tools_of_json(items)->0 =~= tools);
}

/// The parameters of a request to run a tool, as JSON.
pub open spec fn call_json(name: Seq<char>, arguments: JsonView) -> JsonView {
    JsonView::Object(
        Seq::empty().push(("name"@, JsonView::Str(name))).push(("arguments"@, arguments)),
    )
}

/// The tool and the arguments that the parameters of a request to run a tool hold.
pub open spec fn call_of_json(json: JsonView) -> Option<(Seq<char>, JsonView)> {
    match (json::required_text(json.field("name"@, 0, 2)), json.field("arguments"@, 1, 2)) {
        (Some(name), Some(arguments)) => Some((name, arguments)),
        _ => None,
    }
}

/// A request to run a tool is read from its own JSON.
pub proof fn call_is_read_from_its_json(name: Seq<char>, arguments: JsonView)
    ensures
        call_of_json(call_json(name, arguments)) == Some((name, arguments)),
{
    broadcast use json::lookup_push;

    reveal_strlit("name");
    reveal_strlit("arguments");
    assert("name"@.len() != "arguments"@.len());
}

impl ListToolsRequest {
    /// The request's parameters as JSON.
    pub fn to_json(&self) -> (json: Json)
        ensures
            json@ == resource::cursor_json(json::text_view(self.cursor)),
    {
        write_cursor(&self.cursor)
    }

    /// The request whose parameters JSON holds.
    pub fn from_json(json: &Json) -> (request: Option<ListToolsRequest>)
        ensures
            match request {
                Some(request) => resource::cursor_of_json(json@) == Some(
                    json::text_view(request.cursor),
                ),
                None => resource::cursor_of_json(json@) is None,
            },
    {
        match read_cursor(json) {
            Some(cursor) => Some(ListToolsRequest { cursor }),
            None => None,
        }
    }
}

impl CallToolRequest {
    /// The request's parameters as JSON.
    pub fn to_json(&self) -> (json: Json)
        ensures
            json@ == call_json(self.name@, self.arguments@),
    {
        let mut members: Vec<(String, Json)> = Vec::new();
        push_member(&mut members, "name", Json::string(self.name.as_str()));
        push_member(&mut members, "arguments", self.arguments.clone());
        assert(json::members_view(members@) =~= call_json(
            self.name@,
            self.arguments@,
        )->Object_0);
        object(members)
    }

    /// The request whose parameters JSON holds.
    pub fn from_json(json: &Json) -> (request: Option<CallToolRequest>)
        ensures
            match request {
                Some(request) => call_of_json(json@) == Some((request.name@, request.arguments@)),
                None => call_of_json(json@) is None,
            },
    {
        match (read_text(json.field("name", 0, 2)), json.field("arguments", 1, 2)) {
            (Some(name), Some(arguments)) => Some(
                CallToolRequest { name, arguments: arguments.clone() },
            ),
            _ => None,
        }
    }
}

/// Reads a list of tools; nothing where one of them is none.
fn read_tools(items: &Vec<Json>) -> (tools: Option<Vec<Tool>>)
    ensures
        match tools {
            Some(tools) => tools_of_json(json::items_view(items@)) == Some(tools_view(tools@)),
            None => tools_of_json(json::items_view(items@)) is None,
        },
{
    let ghost views = json::items_view(items@);
    let mut tools: Vec<Tool> = Vec::new();
    let mut i: usize = 0;
    while i < items.len()
        invariant
            i <= items.len(),
            tools.len() == i,
            views == json::items_view(items@),
            forall|k: int|
                0 <= k < i ==> ToolView::of_json(#[trigger] views[k]) == Some(tools@[k]@),
        decreases items.len() - i,
    {
        assert(views[i as int] == items@[i as int]@);
        match Tool::from_json(&items[i]) {
            Some(tool) => tools.push(tool),
            None => {
                return None;
            },
        }
        i += 1;
    }
    assert(tools_of_json(views)->0 =~= tools_view(tools@));
    Some(tools)
}

impl Tool {
    /// The tool that JSON holds.
    pub fn from_json(json: &Json) -> (tool: Option<Tool>)
        ensures
            match tool {
                Some(tool) => ToolView::of_json(json@) == Some(tool@),
                None => ToolView::of_json(json@) is None,
            },
    {
        match (
            read_text(json.field("name", 0, 3)),
            read_text(json.field("description", 1, 3)),
            json.field("input_schema", 2, 3),
        ) {
            (Some(name), Some(description), Some(input_schema)) => Some(
                Tool { name, description, input_schema: input_schema.clone() },
            ),
            _ => None,
        }
    }

    /// The tool as JSON.
    pub fn to_json(&self) -> (json: Json)
        ensures
            json@ == self@.json(),
    {
        let mut members: Vec<(String, Json)> = Vec::new();
        push_member(&mut members, "name", Json::string(self.name.as_str()));
        push_member(&mut members, "description", Json::string(self.description.as_str()));
        push_member(&mut members, "input_schema", self.input_schema.clone());
        assert(json::members_view(members@) =~= self@.json()->Object_0);
        object(members)
    }
}

impl ResourceContent {
    /// The resource as JSON.
    pub fn to_json(&self) -> (json: Json)
        ensures
            json@ == resource_content_json(
                self.uri@,
                json::text_view(self.mime_type),
                json::text_view(self.text),
            ),
    {
        let mut members: Vec<(String, Json)> = Vec::new();
        push_member(&mut members, "uri", Json::string(self.uri.as_str()));
        push_member(&mut members, "mime_type", write_optional_text(&self.mime_type));
        push_member(&mut members, "text", write_optional_text(&self.text));
        assert(json::members_view(members@) =~= resource_content_json(
            self.uri@,
            json::text_view(self.mime_type),
            json::text_view(self.text),
        )->Object_0);
        object(members)
    }
}

impl ToolContent {
    /// The content as JSON.
    pub fn to_json(&self) -> (json: Json)
        ensures
            json@ == self@.json(),
    {
        let mut members: Vec<(String, Json)> = Vec::new();
        match self {
            ToolContent::Text { text } => {
                push_member(&mut members, "type", Json::string("text"));
                push_member(&mut members, "text", Json::string(text.as_str()));
            },
            ToolContent::Image { data, mime_type } => {
                push_member(&mut members, "type", Json::string("image"));
                push_member(&mut members, "data", Json::string(data.as_str()));
                push_member(&mut members, "mime_type", Json::string(mime_type.as_str()));
            },
            ToolContent::Resource { resource } => {
                push_member(&mut members, "type", Json::string("resource"));
                push_member(&mut members, "resource", resource.to_json());
            },
        }
        assert(json::members_view(members@) =~= self@.json()->Object_0);
        object(members)
    }
}

impl ResourceContent {
    /// A resource that a tool gives back, from a field that must hold it.
    fn from_field(field: Option<&Json>) -> (resource: Option<ResourceContent>)
        ensures
            match resource {
                Some(resource) => resource_content_of_field(json::optional_ref_view(field)) == Some(
                    ToolContent::Resource { resource }@,
                ),
                None => resource_content_of_field(json::optional_ref_view(field)) is None,
            },
    {
        match field {
            Some(json) => {
                if !json.is_record(3) {
                    return None;
                }
                match (
                    read_text(json.field("uri", 0, 3)),
                    read_optional_text(json.field("mime_type", 1, 3)),
                    read_optional_text(json.field("text", 2, 3)),
                ) {
                    (Some(uri), Some(mime_type), Some(text)) => Some(
                        ResourceContent { uri, mime_type, text },
                    ),
                    _ => None,
                }
            },
            None => None,
        }
    }
}

/// Reads the kind of a content.
fn read_kind(json: &Json) -> (kind: Option<String>)
    ensures
        json::text_view(kind) == content_kind(json@),
{
    match json {
        Json::Object(members) => {
            proof {
                json::object_view(*members);
            }
            read_text(json.get("type"))
        },
        Json::Array(items) => {
            proof {
                json::array_view(*items);
            }
            if items.len() > 0 {
                read_text(Some(&items[0]))
            } else {
                None
            }
        },
        _ => None,
    }
}

impl ToolContent {
    /// The content that JSON holds.
    pub fn from_json(json: &Json) -> (content: Option<ToolContent>)
        ensures
            match content {
                Some(content) => ToolContentView::of_json(json@) == Some(content@),
                None => ToolContentView::of_json(json@) is None,
            },
    {
        let kind: String = match read_kind(json) {
            Some(kind) => kind,
            None => {
                return None;
            },
        };
        proof {
            content_names_differ();
        }
        if same_text(kind.as_str(), "text") {
            match read_text(json.field("text", 1, 2)) {
                Some(text) => Some(ToolContent::Text { text }),
                None => None,
            }
        } else if same_text(kind.as_str(), "image") {
            match (read_text(json.field("data", 1, 3)), read_text(json.field("mime_type", 2, 3))) {
                (Some(data), Some(mime_type)) => Some(ToolContent::Image { data, mime_type }),
                _ => None,
            }
        } else if same_text(kind.as_str(), "resource") {
            match ResourceContent::from_field(json.field("resource", 1, 2)) {
                Some(resource) => Some(ToolContent::Resource { resource }),
                None => None,
            }
        } else {
            None
        }
    }
}

/// Reads a list of contents; nothing where one of them is none.
fn read_contents(items: &Vec<Json>) -> (contents: Option<Vec<ToolContent>>)
    ensures
        match contents {
            Some(contents) => contents_of_json(json::items_view(items@)) == Some(
                Seq::new(contents@.len(), |i: int| contents@[i]@),
            ),
            None => contents_of_json(json::items_view(items@)) is None,
        },
{
    let ghost views = json::items_view(items@);
    let mut contents: Vec<ToolContent> = Vec::new();
    let mut i: usize = 0;
    while i < items.len()
        invariant
            i <= items.len(),
            contents.len() == i,
            views == json::items_view(items@),
            forall|k: int|
                0 <= k < i ==> ToolContentView::of_json(#[trigger] views[k]) == Some(
                    contents@[k]@,
                ),
        decreases items.len() - i,
    {
        assert(views[i as int] == items@[i as int]@);
        match ToolContent::from_json(&items[i]) {
            Some(content) => contents.push(content),
            None => {
                return None;
            },
        }
        i += 1;
    }
    assert(contents_of_json(views)->0 =~= Seq::new(contents@.len(), |i: int| contents@[i]@));
    Some(contents)
}

impl ToolResult {
    /// What a tool gave back, from JSON.
    pub fn from_json(json: &Json) -> (result: Option<ToolResult>)
        ensures
            match result {
                Some(result) => ToolResultView::of_json(json@) == Some(result@),
                None => ToolResultView::of_json(json@) is None,
            },
    {
        match (json.field("content", 0, 2), read_bool(json.field("is_error", 1, 2))) {
            (Some(Json::Array(items)), Some(is_error)) => {
                proof {
                    json::array_view(*items);
                }
                match read_contents(items) {
                    Some(content) => Some(ToolResult { content, is_error }),
                    None => None,
                }
            },
            _ => None,
        }
    }

    /// What the tool gives back, as JSON.
    pub fn to_json(&self) -> (json: Json)
        ensures
            json@ == self@.json(),
    {
        let mut content: Vec<Json> = Vec::new();
        let mut i: usize = 0;
        while i < self.content.len()
            invariant
                i <= self.content.len(),
                content.len() == i,
                forall|k: int| 0 <= k < i ==> content@[k]@ == self.content@[k]@.json(),
            decreases self.content.len() - i,
        {
            content.push(self.content[i].to_json());
            i += 1;
        }
        proof {
            json::array_view(content);
            assert(json::items_view(content@) =~= Seq::new(
                self@.content.len(),
                |i: int| self@.content[i].json(),
            ));
        }
        let mut members: Vec<(String, Json)> = Vec::new();
        push_member(&mut members, "content", Json::Array(content));
        push_member(&mut members, "is_error", Json::Bool(self.is_error));
        assert(json::members_view(members@) =~= self@.json()->Object_0);
        object(members)
    }
}

impl ListToolsResponse {
    /// The list that JSON holds.
    pub fn from_json(json: &Json) -> (list: Option<ListToolsResponse>)
        ensures
            match list {
                Some(list) => list_of_json(json@) == Some(
                    (tools_view(list.tools@), json::text_view(list.next_cursor)),
                ),
                None => list_of_json(json@) is None,
            },
    {
        match (json.field("tools", 0, 2), read_optional_text(json.field("next_cursor", 1, 2))) {
            (Some(Json::Array(items)), Some(next_cursor)) => {
                proof {
                    json::array_view(*items);
                }
                match read_tools(items) {
                    Some(tools) => Some(ListToolsResponse { tools, next_cursor }),
                    None => None,
                }
            },
            _ => None,
        }
    }

    /// The list as JSON.
    pub fn to_json(&self) -> (json: Json)
        ensures
            json@ == list_json(tools_view(self.tools@), json::text_view(self.next_cursor)),
    {
        let mut tools: Vec<Json> = Vec::new();
        let mut i: usize = 0;
        while i < self.tools.len()
            invariant
                i <= self.tools.len(),
                tools.len() == i,
                forall|k: int| 0 <= k < i ==> tools@[k]@ == self.tools@[k]@.json(),
            decreases self.tools.len() - i,
        {
            tools.push(self.tools[i].to_json());
            i += 1;
        }
        proof {
            json::array_view(tools);
            assert(json::items_view(tools@) =~= Seq::new(
                tools_view(self.tools@).len(),
                |i: int| tools_view(self.tools@)[i].json(),
            ));
        }
        let mut members: Vec<(String, Json)> = Vec::new();
        push_member(&mut members, "tools", Json::Array(tools));
        push_member(&mut members, "next_cursor", write_optional_text(&self.next_cursor));
        assert(json::members_view(members@) =~= list_json(
            tools_view(self.tools@),
            json::text_view(self.next_cursor),
        )->Object_0);
        object(members)
    }
}

impl Capability for ToolCapabilities {
    open spec fn json(self) -> JsonView {
        JsonView::Object(
            Seq::empty().push(("list_changed"@, JsonView::Bool(self.list_changed))),
        )
    }

    open spec fn of_json(json: JsonView) -> Option<ToolCapabilities> {
        match json::required_bool(json.field("list_changed"@, 0, 1)) {
            Some(list_changed) => Some(ToolCapabilities { list_changed }),
            None => None,
        }
    }

    proof fn is_read_from_its_json(self) {
        broadcast use json::lookup_push;

    }

    fn to_json(&self) -> (json: Json) {
        let mut members: Vec<(String, Json)> = Vec::new();
        push_member(&mut members, "list_changed", Json::Bool(self.list_changed));
        assert(json::members_view(members@) =~= self.json()->Object_0);
        object(members)
    }

    fn from_json(json: &Json) -> (capabilities: Option<ToolCapabilities>) {
        match read_bool(json.field("list_changed", 0, 1)) {
            Some(list_changed) => Some(ToolCapabilities { list_changed }),
            None => None,
        }
    }
}

/// The tools of a server, each with its provider `T` under its name.
pub struct ToolManager<T> {
    pub tools: Registry<T>,
    pub capabilities: ToolCapabilities,
}

impl<T> View for ToolManager<T> {
    type V = Map<Seq<char>, T>;

    open spec fn view(&self) -> Map<Seq<char>, T> {
        self.tools@
    }
}

/// The provider of the tool that is called, by its name.
pub open spec fn found<T>(tools: Map<Seq<char>, T>, name: Seq<char>) -> Result<T, McpErrorView> {
    if tools.contains_key(name) {
        Ok(tools[name])
    } else {
        Err(McpErrorView::InvalidRequest("Unknown tool: "@ + name))
    }
}

/// A tool that is registered is found by its name, in place of one that had the name; every other
/// tool is found as before, or not at all as before.
pub proof fn registered_tool_is_found<T>(
    tools: Map<Seq<char>, T>,
    name: Seq<char>,
    provider: T,
    other: Seq<char>,
)
    ensures
        found(tools.insert(name, provider), other) == if other == name {
            Ok(provider)
        } else {
            found(tools, other)
        },
{
}

/// Every tool stands in the list once.
pub proof fn every_tool_is_listed_once<T>(manager: ToolManager<T>, name: Seq<char>)
    requires
        manager.wf(),
        manager@.contains_key(name),
    ensures
        exists|i: int|
            {
                &&& 0 <= i < manager.listed().len()
                &&& #[trigger] manager.listed()[i] == (name, manager@[name])
                &&& forall|j: int|
                    0 <= j < manager.listed().len() && #[trigger] manager.listed()[j].0 == name
                        ==> j == i
            },
{
    let i = choose|i: int| manager.tools.position(name, i);
    assert(manager.listed()[i] == (name, manager@[name]));
}

/// A call of a tool that is known: the provider to run, and what it is given.
pub struct ToolCall<'a, T> {
    pub provider: &'a T,
    pub arguments: Json,
}

impl<T> ToolManager<T> {
    /// The table of tools is in order.
    pub open spec fn wf(self) -> bool {
        self.tools.wf()
    }

    /// The names with their providers, in the order in which they are listed.
    pub open spec fn listed(self) -> Seq<(Seq<char>, T)> {
        self.tools.entries()
    }

    /// No tools.
    pub fn new(capabilities: ToolCapabilities) -> (manager: ToolManager<T>)
        ensures
            manager.wf(),
            manager@ == Map::<Seq<char>, T>::empty(),
            manager.listed() == Seq::<(Seq<char>, T)>::empty(),
            manager.capabilities == capabilities,
    {
        ToolManager { tools: Registry::new(), capabilities }
    }

    /// Takes a tool in under the name that its provider gives it, in place of any tool that has
    /// the name.
    pub fn register_tool(&mut self, tool: &Tool, provider: T)
        requires
            old(self).wf(),
        ensures
            final(self).wf(),
            final(self)@ == old(self)@.insert(tool.name@, provider),
            final(self).listed().len() == if old(self)@.contains_key(tool.name@) {
                old(self).listed().len()
            } else {
                old(self).listed().len() + 1
            },
            final(self).capabilities == old(self).capabilities,
    {
        self.tools.insert(tool.name.as_str(), provider);
    }

    /// How many tools there are.
    pub fn len(&self) -> (len: usize)
        ensures
            len == self.listed().len(),
    {
        self.tools.len()
    }

    /// The provider at a position of the list.
    pub fn provider_at(&self, i: usize) -> (provider: &T)
        requires
            self.wf(),
            i < self.listed().len(),
        ensures
            *provider == self.listed()[i as int].1,
            self@.contains_pair(self.listed()[i as int].0, *provider),
    {
        proof {
            crate::registry::entry_is_held(self.tools, i as int);
        }
        self.tools.value_at(i)
    }

    /// The list of tools, from what each provider in the list says of its tool. All of them are
    /// listed at once, whatever the cursor.
    pub fn list_tools(&self, cursor: Option<String>, tools: Vec<Tool>) -> (response: Result<
        ListToolsResponse,
        McpError,
    >)
        requires
            tools@.len() == self.listed().len(),
        ensures
            response matches Ok(response) && response.tools@ == tools@ && response.next_cursor
                is None,
    {
        Ok(ListToolsResponse { tools, next_cursor: None })
    }

    /// Finds the provider of the tool that is called.
    pub fn call_tool(&self, name: &str, arguments: Json) -> (call: Result<
        ToolCall<'_, T>,
        McpError,
    >)
        requires
            self.wf(),
        ensures
            match call {
                Ok(call) => {
                    &&& found(self@, name@) == Ok::<T, McpErrorView>(*call.provider)
                    &&& call.arguments@ == arguments@
                },
                Err(error) => found(self@, name@) == Err::<T, McpErrorView>(error@),
            },
    {
        match self.tools.get(name) {
            Some(provider) => Ok(ToolCall { provider, arguments }),
            None => Err(McpError::InvalidRequest("Unknown tool: ".to_owned().concat(name))),
        }
    }
}

/// What came of running a tool.
pub open spec fn run_view(outcome: Result<ToolResult, McpError>) -> Result<
    ToolResultView,
    McpErrorView,
> {
    match outcome {
        Ok(given) => Ok(given@),
        Err(error) => Err(error@),
    }
}

/// What is given back for a call: what the tool gave back, or, where it failed, that it failed
/// and why.
pub open spec fn finished(outcome: Result<ToolResultView, McpErrorView>) -> ToolResultView {
    match outcome {
        Ok(given) => given,
        Err(error) => ToolResultView::of_error(error),
    }
}

/// What is given back for a call: what the tool gave back, or, where it failed, that it failed
/// and why.
pub fn finish_call(outcome: Result<ToolResult, McpError>) -> (result: ToolResult)
    ensures
        result@ == finished(run_view(outcome)),
        outcome matches Ok(given) ==> result == given,
        outcome matches Err(error) ==> {
            &&& result.is_error
            &&& result.content@.len() == 1
            &&& result.content@[0] matches ToolContent::Text { text } && text@ == error@.message()
        },
{
    match outcome {
        Ok(given) => given,
        Err(error) => {
            let mut content: Vec<ToolContent> = Vec::new();
            content.push(ToolContent::Text { text: error.message() });
            let result: ToolResult = ToolResult { content, is_error: true };
            assert(result@ =~= ToolResultView::of_error(error@));
            result
        },
    }
}

} // verus!
