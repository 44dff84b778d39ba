//! What holds of tools, and of what is asked and told of them.
use crate::error::{McpError, McpErrorView};
use crate::json;
use crate::json::JsonView;
use crate::tools;
use crate::tools::{
    ResourceContent, Tool, ToolContent, ToolContentView, ToolResult, ToolResultView, ToolView,
};
use vstd::prelude::*;

verus! {

/// What a tool gave back is what is given back for the call: as many contents, each as it was, in
/// the same order, and an error exactly where the tool said so.
pub proof fn what_a_tool_gave_is_given_back(given: ToolResultView)
    ensures
        tools::finished(Ok(given)).content.len() == given.content.len(),
        forall|i: int|
            0 <= i < given.content.len() ==> tools::finished(Ok(given)).content[i]
                == #[trigger] given.content[i],
        tools::finished(Ok(given)).is_error == given.is_error,
{
}

/// A call that failed is given back as an error, with one content: the error in words.
pub proof fn a_failed_call_tells_why(error: McpErrorView)
    ensures
        tools::finished(Err(error)).is_error,
        tools::finished(Err(error)).content.len() == 1,
        tools::finished(Err(error)).content[0] == (ToolContentView::Text {
            text: error.message(),
        }),
        ToolResultView::of_error(error) == tools::finished(Err(error)),
{
}

/// The view of what a tool gave back holds all of it.
pub proof fn views_of_results_hold_all(result: ToolResult, error: McpError)
    ensures
        result@.is_error == result.is_error,
        result@.content.len() == result.content@.len(),
        forall|i: int|
            0 <= i < result.content@.len() ==> result@.content[i]
                == (#[trigger] result.content@[i])@,
        tools::run_view(Ok(result)) == Ok::<ToolResultView, McpErrorView>(result@),
        tools::run_view(Err(error)) == Err::<ToolResultView, McpErrorView>(error@),
{
}

/// The view of a content says its kind and holds all of it.
pub proof fn views_of_contents_hold_all(
    text: String,
    data: String,
    mime_type: String,
    resource: ResourceContent,
)
    ensures
        (ToolContent::Text { text })@ == (ToolContentView::Text { text: text@ }),
        (ToolContent::Image { data, mime_type })@ == (ToolContentView::Image {
            data: data@,
            mime_type: mime_type@,
        }),
        (ToolContent::Resource { resource })@ is Resource,
        (ToolContent::Resource { resource })@ matches ToolContentView::Resource {
            uri,
            mime_type,
            text,
        } ==> {
            &&& uri == resource.uri@
            &&& mime_type is Some <==> resource.mime_type is Some
            &&& resource.mime_type matches Some(held) ==> mime_type == Some(held@)
            &&& text is Some <==> resource.text is Some
            &&& resource.text matches Some(held) ==> text == Some(held@)
        },
{
}

/// The view of a tool, or of a list of tools, holds all of it.
pub proof fn views_of_tools_hold_all(tool: Tool, list: Seq<Tool>, i: int)
    ensures
        tool@.name == tool.name@,
        tool@.description == tool.description@,
        tool@.input_schema == tool.input_schema@,
        tools::tools_view(list).len() == list.len(),
        0 <= i < list.len() ==> tools::tools_view(list)[i] == list[i]@,
{
}

/// What a tool gave back is written as an object of two members: the contents, each in its place,
/// and whether it is an error.
pub proof fn members_of_a_written_result(result: ToolResultView)
    ensures
        result.json().is_object_of(2),
        result.json().member("is_error"@) == Some(JsonView::Bool(result.is_error)),
        result.json().member("content"@) matches Some(JsonView::Array(items)) && {
            &&& items.len() == result.content.len()
            &&& forall|i: int|
                0 <= i < items.len() ==> #[trigger] items[i] == result.content[i].json()
        },
{
    broadcast use json::lookup_push;

    tools::content_names_differ();
}

/// A content is written as an object that names its kind and holds what the content holds.
pub proof fn members_of_a_written_content(
    text: Seq<char>,
    data: Seq<char>,
    mime_type: Seq<char>,
    uri: Seq<char>,
    held_type: Option<Seq<char>>,
    held_text: Option<Seq<char>>,
)
    ensures
        ({
            let written = (ToolContentView::Text { text }).json();
            &&& written.is_object_of(2)
            &&& written.member("type"@) == Some(JsonView::Str("text"@))
            &&& written.member("text"@) == Some(JsonView::Str(text))
        }),
        ({
            let written = (ToolContentView::Image { data, mime_type }).json();
            &&& written.is_object_of(3)
            &&& written.member("type"@) == Some(JsonView::Str("image"@))
            &&& written.member("data"@) == Some(JsonView::Str(data))
            &&& written.member("mime_type"@) == Some(JsonView::Str(mime_type))
        }),
        ({
            let written = (ToolContentView::Resource {
                uri,
                mime_type: held_type,
                text: held_text,
            }).json();
            &&& written.is_object_of(2)
            &&& written.member("type"@) == Some(JsonView::Str("resource"@))
            &&& written.member("resource"@) matches Some(resource) && {
                &&& resource.is_object_of(3)
                &&& resource.member("uri"@) == Some(JsonView::Str(uri))
                &&& resource.member("mime_type"@) == Some(
                    match held_type {
                        Some(held) => JsonView::Str(held),
                        None => JsonView::Null,
                    },
                )
                &&& resource.member("text"@) == Some(
                    match held_text {
                        Some(held) => JsonView::Str(held),
                        None => JsonView::Null,
                    },
                )
            }
        }),
{
    broadcast use json::lookup_push;

    tools::content_names_differ();
}

/// A tool is written with its name, its description and what it takes.
pub proof fn members_of_a_written_tool(tool: ToolView)
    ensures
        tool.json().is_object_of(3),
        tool.json().member("name"@) == Some(JsonView::Str(tool.name)),
        tool.json().member("description"@) == Some(JsonView::Str(tool.description)),
        tool.json().member("input_schema"@) == Some(tool.input_schema),
{
    broadcast use json::lookup_push;

    reveal_strlit("name");
    reveal_strlit("description");
    reveal_strlit("input_schema");
    assert("name"@.len() != "description"@.len());
    assert("name"@.len() != "input_schema"@.len());
    assert("description"@.len() != "input_schema"@.len());
}

/// A list of tools is written with every tool in its place, and the cursor behind it.
pub proof fn members_of_a_written_list(list: Seq<ToolView>, next_cursor: Option<Seq<char>>)
    ensures
        tools::list_json(list, next_cursor).is_object_of(2),
        tools::list_json(list, next_cursor).member("next_cursor"@) == Some(
            match next_cursor {
                Some(cursor) => JsonView::Str(cursor),
                None => JsonView::Null,
            },
        ),
        tools::list_json(list, next_cursor).member("tools"@) matches Some(JsonView::Array(items))
            && {
            &&& items.len() == list.len()
            &&& forall|i: int| 0 <= i < items.len() ==> #[trigger] items[i] == list[i].json()
        },
{
    broadcast use json::lookup_push;

    reveal_strlit("tools");
    reveal_strlit("next_cursor");
    assert("tools"@.len() != "next_cursor"@.len());
}

/// A call of a tool is written with the tool's name and the arguments.
pub proof fn members_of_a_written_call(name: Seq<char>, arguments: JsonView)
    ensures
        tools::call_json(name, arguments).is_object_of(2),
        tools::call_json(name, arguments).member("name"@) == Some(JsonView::Str(name)),
        tools::call_json(name, arguments).member("arguments"@) == Some(arguments),
{
    broadcast use json::lookup_push;

    reveal_strlit("name");
    reveal_strlit("arguments");
    assert("name"@.len() != "arguments"@.len());
}

/// Any object that names a tool in text and has arguments is read as a call of it; any other
/// object is none.
pub proof fn a_call_is_read_from_an_object(members: Seq<(Seq<char>, JsonView)>)
    ensures
        match tools::call_of_json(JsonView::Object(members)) {
            Some((name, arguments)) => {
                &&& json::lookup(members, "name"@) == Some(JsonView::Str(name))
                &&& json::lookup(members, "arguments"@) == Some(arguments)
            },
            None => {
                ||| !(json::lookup(members, "name"@) matches Some(JsonView::Str(_)))
                ||| json::lookup(members, "arguments"@) is None
            },
        },
{
}

/// Any object with a name and a description in text and an input schema is read as that tool; any
/// other object is none.
pub proof fn a_tool_is_read_from_an_object(members: Seq<(Seq<char>, JsonView)>)
    ensures
        match ToolView::of_json(JsonView::Object(members)) {
            Some(tool) => {
                &&& json::lookup(members, "name"@) == Some(JsonView::Str(tool.name))
                &&& json::lookup(members, "description"@) == Some(JsonView::Str(tool.description))
                &&& json::lookup(members, "input_schema"@) == Some(tool.input_schema)
            },
            None => {
                ||| !(json::lookup(members, "name"@) matches Some(JsonView::Str(_)))
                ||| !(json::lookup(members, "description"@) matches Some(JsonView::Str(_)))
                ||| json::lookup(members, "input_schema"@) is None
            },
        },
{
}

/// Any object with an array of tools, and a cursor in text or none, is read as that list, every
/// tool of it in its place.
pub proof fn a_list_is_read_from_an_object(members: Seq<(Seq<char>, JsonView)>)
    ensures
        match tools::list_of_json(JsonView::Object(members)) {
            Some((list, next_cursor)) => {
                &&& json::lookup(members, "tools"@) matches Some(JsonView::Array(items)) && {
                    &&& items.len() == list.len()
                    &&& forall|i: int|
                        0 <= i < list.len() ==> ToolView::of_json(items[i]) == Some(
                            #[trigger] list[i],
                        )
                }
                &&& match next_cursor {
                    Some(cursor) => json::lookup(members, "next_cursor"@) == Some(
                        JsonView::Str(cursor),
                    ),
                    None => json::lookup(members, "next_cursor"@) is None || json::lookup(
                        members,
                        "next_cursor"@,
                    ) == Some(JsonView::Null),
                }
            },
            None => {
                ||| !(json::lookup(members, "tools"@) matches Some(JsonView::Array(_)))
                ||| json::lookup(members, "tools"@) matches Some(JsonView::Array(items))
                    && exists|i: int|
                    0 <= i < items.len() && ToolView::of_json(#[trigger] items[i]) is None
                ||| json::lookup(members, "next_cursor"@) matches Some(cursor) && !(cursor is Str)
                    && !(cursor is Null)
            },
        },
{
}

/// Any object with an array of contents, and whether they are an error, is read as that result,
/// every content of it in its place.
pub proof fn a_result_is_read_from_an_object(members: Seq<(Seq<char>, JsonView)>)
    ensures
        match ToolResultView::of_json(JsonView::Object(members)) {
            Some(result) => {
                &&& json::lookup(members, "is_error"@) == Some(JsonView::Bool(result.is_error))
                &&& json::lookup(members, "content"@) matches Some(JsonView::Array(items)) && {
                    &&& items.len() == result.content.len()
                    &&& forall|i: int|
                        0 <= i < result.content.len() ==> ToolContentView::of_json(items[i])
                            == Some(#[trigger] result.content[i])
                }
            },
            None => {
                ||| !(json::lookup(members, "content"@) matches Some(JsonView::Array(_)))
                ||| json::lookup(members, "content"@) matches Some(JsonView::Array(items))
                    && exists|i: int|
                    0 <= i < items.len() && ToolContentView::of_json(#[trigger] items[i]) is None
                ||| !(json::lookup(members, "is_error"@) matches Some(JsonView::Bool(_)))
            },
        },
{
}

/// Any object that says its kind and holds what a content of that kind holds is read as that
/// content; any other object is none.
pub proof fn a_content_is_read_from_an_object(members: Seq<(Seq<char>, JsonView)>)
    ensures
        match ToolContentView::of_json(JsonView::Object(members)) {
            Some(ToolContentView::Text { text }) => {
                &&& json::lookup(members, "type"@) == Some(JsonView::Str("text"@))
                &&& json::lookup(members, "text"@) == Some(JsonView::Str(text))
            },
            Some(ToolContentView::Image { data, mime_type }) => {
                &&& json::lookup(members, "type"@) == Some(JsonView::Str("image"@))
                &&& json::lookup(members, "data"@) == Some(JsonView::Str(data))
                &&& json::lookup(members, "mime_type"@) == Some(JsonView::Str(mime_type))
            },
            Some(ToolContentView::Resource { .. }) => {
                &&& json::lookup(members, "type"@) == Some(JsonView::Str("resource"@))
                &&& tools::resource_content_of_field(json::lookup(members, "resource"@))
                    == ToolContentView::of_json(JsonView::Object(members))
            },
            None => {
                let kind = json::lookup(members, "type"@);
                ||| kind == Some(JsonView::Str("text"@)) && !(json::lookup(
                    members,
                    "text"@,
                ) matches Some(JsonView::Str(_)))
                ||| kind == Some(JsonView::Str("image"@)) && (!(json::lookup(
                    members,
                    "data"@,
                ) matches Some(JsonView::Str(_))) || !(json::lookup(
                    members,
                    "mime_type"@,
                ) matches Some(JsonView::Str(_))))
                ||| kind == Some(JsonView::Str("resource"@)) && tools::resource_content_of_field(
                    json::lookup(members, "resource"@),
                ) is None
                ||| kind != Some(JsonView::Str("text"@)) && kind != Some(JsonView::Str("image"@))
                    && kind != Some(JsonView::Str("resource"@))
            },
        },
{
    tools::content_names_differ();
}

/// The resource of a content is read from any object that has a uri in text, and a type and a
/// text where they are there.
pub proof fn a_resource_content_is_read_from_an_object(members: Seq<(Seq<char>, JsonView)>)
    ensures
        tools::resource_content_of_field(None) is None,
        match tools::resource_content_of_field(Some(JsonView::Object(members))) {
            Some(content) => content matches ToolContentView::Resource { uri, mime_type, text } && {
                &&& json::lookup(members, "uri"@) == Some(JsonView::Str(uri))
                &&& match mime_type {
                    Some(held) => json::lookup(members, "mime_type"@) == Some(JsonView::Str(held)),
                    None => json::lookup(members, "mime_type"@) is None || json::lookup(
                        members,
                        "mime_type"@,
                    ) == Some(JsonView::Null),
                }
                &&& match text {
                    Some(held) => json::lookup(members, "text"@) == Some(JsonView::Str(held)),
                    None => json::lookup(members, "text"@) is None || json::lookup(
                        members,
                        "text"@,
                    ) == Some(JsonView::Null),
                }
            },
            None => {
                ||| !(json::lookup(members, "uri"@) matches Some(JsonView::Str(_)))
                ||| json::lookup(members, "mime_type"@) matches Some(held) && !(held is Str)
                    && !(held is Null)
                ||| json::lookup(members, "text"@) matches Some(held) && !(held is Str)
                    && !(held is Null)
            },
        },
{
}

/// A tool is found exactly where it is there, and then it is the one of that name; what is told
/// otherwise names the tool that was asked for.
pub proof fn a_tool_is_found_where_it_is_there<T>(table: Map<Seq<char>, T>, name: Seq<char>)
    ensures
        table.contains_key(name) ==> tools::found(table, name) == Ok::<T, McpErrorView>(
            table[name],
        ),
        !table.contains_key(name) ==> tools::found(table, name) == Err::<T, McpErrorView>(
            McpErrorView::InvalidRequest("Unknown tool: "@ + name),
        ),
{
}

/// What is asked and told of tools is read from an array as from the object whose members are its
/// items, in the order in which they are written.
pub proof fn an_array_is_read_as_the_object(first: JsonView, second: JsonView, third: JsonView)
    ensures
        ToolView::of_json(JsonView::Array(Seq::empty().push(first).push(second).push(third)))
            == ToolView::of_json(
            JsonView::Object(
                Seq::empty()
                    .push(("name"@, first))
                    .push(("description"@, second))
                    .push(("input_schema"@, third)),
            ),
        ),
        tools::call_of_json(JsonView::Array(Seq::empty().push(first).push(second)))
            == tools::call_of_json(
            JsonView::Object(Seq::empty().push(("name"@, first)).push(("arguments"@, second))),
        ),
        tools::list_of_json(JsonView::Array(Seq::empty().push(first).push(second)))
            == tools::list_of_json(
            JsonView::Object(Seq::empty().push(("tools"@, first)).push(("next_cursor"@, second))),
        ),
        ToolResultView::of_json(JsonView::Array(Seq::empty().push(first).push(second)))
            == ToolResultView::of_json(
            JsonView::Object(Seq::empty().push(("content"@, first)).push(("is_error"@, second))),
        ),
        tools::resource_content_of_field(
            Some(JsonView::Array(Seq::empty().push(first).push(second).push(third))),
        ) == tools::resource_content_of_field(
            Some(
                JsonView::Object(
                    Seq::empty()
                        .push(("uri"@, first))
                        .push(("mime_type"@, second))
                        .push(("text"@, third)),
                ),
            ),
        ),
{
    broadcast use json::lookup_push;

    tools::content_names_differ();
    reveal_strlit("name");
    reveal_strlit("description");
    reveal_strlit("input_schema");
    reveal_strlit("arguments");
    reveal_strlit("tools");
    reveal_strlit("next_cursor");
    assert("name"@.len() != "description"@.len());
    assert("name"@.len() != "input_schema"@.len());
    assert("description"@.len() != "input_schema"@.len());
    assert("name"@.len() != "arguments"@.len());
    assert("tools"@.len() != "next_cursor"@.len());
}

/// A content is read from an array that begins with its kind as from the object that names it.
pub proof fn a_content_is_read_from_an_array(first: JsonView, second: JsonView)
    ensures
        ToolContentView::of_json(
            JsonView::Array(Seq::empty().push(JsonView::Str("text"@)).push(first)),
        ) == ToolContentView::of_json(
            JsonView::Object(
                Seq::empty().push(("type"@, JsonView::Str("text"@))).push(("text"@, first)),
            ),
        ),
        ToolContentView::of_json(
            JsonView::Array(Seq::empty().push(JsonView::Str("image"@)).push(first).push(second)),
        ) == ToolContentView::of_json(
            JsonView::Object(
                Seq::empty()
                    .push(("type"@, JsonView::Str("image"@)))
                    .push(("data"@, first))
                    .push(("mime_type"@, second)),
            ),
        ),
        ToolContentView::of_json(
            JsonView::Array(Seq::empty().push(JsonView::Str("resource"@)).push(first)),
        ) == ToolContentView::of_json(
            JsonView::Object(
                Seq::empty().push(("type"@, JsonView::Str("resource"@))).push(
                    ("resource"@, first),
                ),
            ),
        ),
{
    broadcast use json::lookup_push;

    tools::content_names_differ();
}

/// What is neither an object nor an array is nothing that is told of tools.
pub proof fn plain_values_are_nothing_of_tools(value: JsonView)
    requires
        !(value is Object),
        !(value is Array),
    ensures
        ToolView::of_json(value) is None,
        tools::call_of_json(value) is None,
        tools::list_of_json(value) is None,
        ToolResultView::of_json(value) is None,
        ToolContentView::of_json(value) is None,
        tools::resource_content_of_field(Some(value)) is None,
{
}

} // verus!
