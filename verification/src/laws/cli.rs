//! What holds of what the command line says.
use crate::cli;
use crate::cli::{ClientCommand, ClientTransport, Expected};
use crate::error::{McpError, McpErrorView};
use crate::json;
use crate::json::JsonView;
use crate::logging;
use crate::prompts;
use crate::resource;
use crate::server::config::TransportType;
use crate::tools;
use crate::tools::{ToolResultView, ToolView};
use vstd::prelude::*;

verus! {

/// The names of transports are different names.
proof fn transport_names_differ()
    ensures
        "stdio"@ != "sse"@,
        "stdio"@ != "websocket"@,
        "sse"@ != "websocket"@,
        "sse"@ != "ws"@,
{
    reveal_strlit("stdio");
    reveal_strlit("sse");
    reveal_strlit("websocket");
    reveal_strlit("ws");
    assert("stdio"@.len() != "sse"@.len());
    assert("stdio"@.len() != "websocket"@.len());
    assert("sse"@.len() != "websocket"@.len());
    assert("sse"@.len() != "ws"@.len());
}

/// Each transport of a server is had under its own name and no other.
pub proof fn transports_are_had_by_name(name: Seq<char>)
    ensures
        cli::transport_named(name) == Some(TransportType::Stdio) <==> name == "stdio"@,
        cli::transport_named(name) == Some(TransportType::Sse) <==> name == "sse"@,
        cli::transport_named(name) == Some(TransportType::WebSocket) <==> name == "websocket"@,
        cli::workspace_transport(name) == TransportType::Sse <==> name == "sse"@,
        cli::workspace_transport(name) == TransportType::WebSocket <==> name == "ws"@,
        cli::workspace_transport(name) == TransportType::Stdio <==> name != "sse"@ && name
            != "ws"@,
{
    transport_names_differ();
}

/// A server is reached at the host and the port of its url; at this machine, or at port 3000,
/// where the url names none.
pub proof fn a_server_is_reached_where_its_url_says(host: Seq<char>, port: u16)
    ensures
        cli::server_address(Some(host), Some(port)) == (host, port),
        cli::server_address(Some(host), None) == (host, 3000u16),
        cli::server_address(None, Some(port)) == ("127.0.0.1"@, port),
        cli::server_address(None, None) == ("127.0.0.1"@, 3000u16),
{
}

/// A client's transport is the one that its command line names: over standard input and output,
/// or to the server whose url is given; without the url, or under any other name, there is none.
pub proof fn a_client_has_the_transport_it_names(
    name: Seq<char>,
    server: Option<Seq<char>>,
    chosen: Result<ClientTransport, McpError>,
)
    requires
        cli::is_named_transport(name, server, chosen),
        cli::can_be_had(name, server),
    ensures
        name == "stdio"@ ==> (chosen matches Ok(ClientTransport::Stdio(stdio)) && stdio.capacity()
            == 32),
        name == "sse"@ && server is None ==> (chosen matches Err(error) && error@
            == McpErrorView::InvalidRequest("Server URL required for SSE transport"@)),
        name == "sse"@ && server is Some ==> {
            &&& cli::url_parts(server->0) is Some
            &&& chosen matches Ok(ClientTransport::Sse(sse)) && {
                let (host, port) = cli::url_parts(server->0)->0;
                &&& sse@.client_mode
                &&& sse@.buffer_size == 32
                &&& host matches Some(host) ==> sse@.host == host
                &&& host is None ==> sse@.host == "127.0.0.1"@
                &&& port matches Some(port) ==> sse@.port == port
                &&& port is None ==> sse@.port == 3000
            }
        },
        name != "stdio"@ && name != "sse"@ ==> (chosen matches Err(error) && error@
            == McpErrorView::InvalidRequest("Invalid transport type"@)),
{
    transport_names_differ();
}

/// A transport cannot be had exactly where it goes to a server whose url is none.
pub proof fn which_transports_can_be_had(name: Seq<char>, url: Seq<char>)
    ensures
        cli::can_be_had(name, None),
        name != "sse"@ ==> cli::can_be_had(name, Some(url)),
        name == "sse"@ ==> (cli::can_be_had(name, Some(url)) <==> cli::url_parts(url) is Some),
{
}

/// Each command asks for what it names, with what it is given, and needs the capability for it;
/// a command whose arguments are no JSON asks for nothing.
pub proof fn commands_ask_for_what_they_name(
    cursor: Option<String>,
    uri: String,
    name: String,
    args: String,
    level: String,
)
    ensures
        cli::question(ClientCommand::ListResources { cursor }) matches Some(question) && {
            &&& question.capability == "resources"@
            &&& question.method == "resources/list"@
            &&& question.params == resource::cursor_json(json::text_view(cursor))
        },
        cli::question(ClientCommand::ReadResource { uri }) matches Some(question) && {
            &&& question.capability == "resources"@
            &&& question.method == "resources/read"@
            &&& question.params == resource::uri_json(uri@)
        },
        cli::question(ClientCommand::Subscribe { uri }) matches Some(question) && {
            &&& question.capability == "resources"@
            &&& question.method == "resources/subscribe"@
            &&& question.params == JsonView::Str(uri@)
        },
        cli::question(ClientCommand::ListPrompts { cursor }) matches Some(question) && {
            &&& question.capability == "prompts"@
            &&& question.method == "prompts/list"@
            &&& question.params == resource::cursor_json(json::text_view(cursor))
        },
        cli::question(ClientCommand::GetPrompt { name, args: None }) matches Some(question) && {
            &&& question.capability == "prompts"@
            &&& question.method == "prompts/get"@
            &&& question.params == prompts::prompt_json(name@, None)
        },
        match json::json_parse(args@) {
            Some(arguments) => {
                &&& cli::question(ClientCommand::GetPrompt { name, args: Some(args) }) matches Some(
                    question,
                ) && {
                    &&& question.capability == "prompts"@
                    &&& question.method == "prompts/get"@
                    &&& question.params == prompts::prompt_json(name@, Some(arguments))
                }
                &&& cli::question(ClientCommand::CallTool { name, args }) matches Some(
                    question,
                ) && {
                    &&& question.capability == "tools"@
                    &&& question.method == "tools/call"@
                    &&& question.params == tools::call_json(name@, arguments)
                }
            },
            None => {
                &&& cli::question(ClientCommand::GetPrompt { name, args: Some(args) }) is None
                &&& cli::question(ClientCommand::CallTool { name, args }) is None
            },
        },
        cli::question(ClientCommand::ListTools { cursor }) matches Some(question) && {
            &&& question.capability == "tools"@
            &&& question.method == "tools/list"@
            &&& question.params == resource::cursor_json(json::text_view(cursor))
        },
        cli::question(ClientCommand::SetLogLevel { level }) matches Some(question) && {
            &&& question.capability == "logging"@
            &&& question.method == "logging/setLevel"@
            &&& question.params == logging::level_json(level@)
        },
{
}

/// What is shown of a structure is the value as it came; what is no structure, or has not the list
/// that it is to have, is refused.
pub proof fn structures_are_shown_as_they_came(
    members: Seq<(Seq<char>, JsonView)>,
    items: Seq<JsonView>,
    value: JsonView,
)
    ensures
        Expected::Record.shown(JsonView::Object(members)) == Ok::<Option<JsonView>, McpErrorView>(
            Some(JsonView::Object(members)),
        ),
        Expected::Record.shown(JsonView::Array(items)) == Ok::<Option<JsonView>, McpErrorView>(
            Some(JsonView::Array(items)),
        ),
        !(value is Object) && !(value is Array) ==> {
            &&& Expected::Record.shown(value) == Err::<Option<JsonView>, McpErrorView>(
                McpErrorView::InvalidParams,
            )
            &&& Expected::ResourceList.shown(value) == Err::<Option<JsonView>, McpErrorView>(
                McpErrorView::InvalidParams,
            )
            &&& Expected::PromptList.shown(value) == Err::<Option<JsonView>, McpErrorView>(
                McpErrorView::InvalidParams,
            )
        },
        Expected::ResourceList.shown(JsonView::Object(members)) == if json::lookup(
            members,
            "resources"@,
        ) matches Some(JsonView::Array(_)) {
            Ok::<Option<JsonView>, McpErrorView>(Some(JsonView::Object(members)))
        } else {
            Err(McpErrorView::InvalidParams)
        },
        Expected::PromptList.shown(JsonView::Object(members)) == if json::lookup(
            members,
            "prompts"@,
        ) matches Some(JsonView::Array(_)) {
            Ok::<Option<JsonView>, McpErrorView>(Some(JsonView::Object(members)))
        } else {
            Err(McpErrorView::InvalidParams)
        },
        Expected::ResourceList.shown(JsonView::Array(items)) == if exists|i: int|
            0 <= i < items.len() && (#[trigger] items[i]) is Array {
            Ok::<Option<JsonView>, McpErrorView>(Some(JsonView::Array(items)))
        } else {
            Err(McpErrorView::InvalidParams)
        },
        Expected::PromptList.shown(JsonView::Array(items)) == if exists|i: int|
            0 <= i < items.len() && (#[trigger] items[i]) is Array {
            Ok::<Option<JsonView>, McpErrorView>(Some(JsonView::Array(items)))
        } else {
            Err(McpErrorView::InvalidParams)
        },
{
}

/// What is shown of tools, or of what a tool gave back, says just what the value says; what says
/// no such thing is refused.
pub proof fn tools_are_shown_as_they_are_told(
    value: JsonView,
    list: Seq<ToolView>,
    next_cursor: Option<Seq<char>>,
    result: ToolResultView,
)
    ensures
        tools::list_of_json(value) == Some((list, next_cursor)) ==> {
            let shown = Expected::ToolList.shown(value);
            &&& shown is Ok
            &&& shown->Ok_0 is Some
            &&& tools::list_of_json(shown->Ok_0->0) == Some((list, next_cursor))
        },
        tools::list_of_json(value) is None ==> Expected::ToolList.shown(value) == Err::<
            Option<JsonView>,
            McpErrorView,
        >(McpErrorView::InvalidParams),
        ToolResultView::of_json(value) == Some(result) ==> {
            let shown = Expected::ToolResult.shown(value);
            &&& shown is Ok
            &&& shown->Ok_0 is Some
            &&& ToolResultView::of_json(shown->Ok_0->0) == Some(result)
        },
        ToolResultView::of_json(value) is None ==> Expected::ToolResult.shown(value) == Err::<
            Option<JsonView>,
            McpErrorView,
        >(McpErrorView::InvalidParams),
{
    tools::list_is_read_from_its_json(list, next_cursor);
    tools::result_is_read_from_its_json(result);
}

/// Where nothing is to come, null is nothing: it is shown, or not. Anything else is refused.
pub proof fn nothing_is_shown_as_nothing(value: JsonView)
    ensures
        Expected::Shown.shown(JsonView::Null) == Ok::<Option<JsonView>, McpErrorView>(
            Some(JsonView::Null),
        ),
        Expected::Silent.shown(JsonView::Null) == Ok::<Option<JsonView>, McpErrorView>(None),
        !(value is Null) ==> {
            &&& Expected::Shown.shown(value) == Err::<Option<JsonView>, McpErrorView>(
                McpErrorView::InvalidParams,
            )
            &&& Expected::Silent.shown(value) == Err::<Option<JsonView>, McpErrorView>(
                McpErrorView::InvalidParams,
            )
        },
{
}

/// The views of the parts of a url, and of a text that need not be there, hold all of them.
pub proof fn views_of_url_parts_hold_all(host: String, port: Option<u16>, text: &str)
    ensures
        cli::parts_view(Some((Some(host), port))) == Some((Some(host@), port)),
        cli::parts_view(Some((None, port))) == Some((None::<Seq<char>>, port)),
        cli::parts_view(None) is None,
        cli::text_ref_view(Some(text)) == Some(text@),
        cli::text_ref_view(None) is None,
{
}

} // verus!
