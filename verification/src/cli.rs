//! What the command line of the client and of the server says.
use crate::client::types::InfoView;
use crate::client::{expect_nothing, Client, ClientInfo};
use crate::error::{McpError, McpErrorView};
use crate::json;
use crate::json::{Json, JsonView};
use crate::logging;
use crate::prompts;
use crate::protocol::PendingRequest;
use crate::resource;
use crate::server::config;
use crate::server::config::{
    version, LoggingSettings, ResourceSettings, ServerConfig, ServerSettings, TransportType,
};
use crate::text::same_text;
use crate::tools;
use crate::tools::{ListToolsResponse, ToolResult, ToolResultView};
use crate::transport::sse::{SseTransport, SseTransportView};
use crate::transport::stdio::StdioTransport;
use vstd::prelude::*;

verus! {

/// What the command line of a server says.
#[derive(Debug)]
pub struct Cli {
    /// Config file path
    pub config: Option<String>,
    /// Transport type (stdio, sse, websocket)
    pub transport: String,
    /// Server port for network transports
    pub port: u16,
    /// Log level (error, warn, info, debug, trace)
    pub log_level: String,
    /// Resource root directory
    pub resource_root: Option<String>,
}

impl Default for Cli {
    /// What an empty command line says.
    fn default() -> (cli: Cli)
        ensures
            cli.config is None,
            cli.transport@ == "stdio"@,
            cli.port == 3000,
            cli.log_level@ == "info"@,
            cli.resource_root is None,
    {
        Cli {
            config: None,
            transport: "stdio".to_owned(),
            port: 3000,
            log_level: "info".to_owned(),
            resource_root: None,
        }
    }
}

/// The transport of a server, by its name.
pub open spec fn transport_named(name: Seq<char>) -> Option<TransportType> {
    if name == "stdio"@ {
        Some(TransportType::Stdio)
    } else if name == "sse"@ {
        Some(TransportType::Sse)
    } else if name == "websocket"@ {
        Some(TransportType::WebSocket)
    } else {
        None
    }
}

/// The transport of a server, by its name.
fn read_transport(name: &str) -> (transport: Option<TransportType>)
    ensures
        transport == transport_named(name@),
{
    if same_text(name, "stdio") {
        Some(TransportType::Stdio)
    } else if same_text(name, "sse") {
        Some(TransportType::Sse)
    } else if same_text(name, "websocket") {
        Some(TransportType::WebSocket)
    } else {
        None
    }
}

impl Cli {
    /// The settings of the server: those it has, with what the command line says in place of
    /// theirs.
    pub fn apply(self, config: ServerConfig) -> (applied: Result<ServerConfig, McpError>)
        ensures
            match applied {
                Ok(applied) => {
                    &&& transport_named(self.transport@) is Some
                    &&& applied == (ServerConfig {
                        server: ServerSettings {
                            port: self.port,
                            transport: transport_named(self.transport@)->0,
                            ..config.server
                        },
                        resources: ResourceSettings {
                            root_path: match self.resource_root {
                                Some(root) => root,
                                None => config.resources.root_path,
                            },
                            ..config.resources
                        },
                        logging: LoggingSettings {
                            level: self.log_level,
                            ..config.logging
                        },
                        ..config
                    })
                },
                Err(error) => {
                    &&& transport_named(self.transport@) is None
                    &&& error@ == (McpErrorView::Custom {
                        code: (-32000) as i32,
                        message: "Invalid transport type"@,
                    })
                },
            },
    {
        let mut config: ServerConfig = config;
        if let Some(resource_root) = self.resource_root {
            config.resources.root_path = resource_root;
        }
        config.logging.level = self.log_level;
        config.server.port = self.port;
        config.server.transport = match read_transport(self.transport.as_str()) {
            Some(transport) => transport,
            None => {
                return Err(
                    McpError::Custom {
                        code: -32000,
                        message: "Invalid transport type".to_owned(),
                    },
                );
            },
        };
        Ok(config)
    }
}

/// What the command line of a server for one workspace says.
#[derive(Debug)]
pub struct Args {
    /// Path to workspace directory
    pub workspace: Option<String>,
    /// Server port
    pub port: u16,
    /// Transport type (stdio, sse, ws)
    pub transport: String,
}

/// The transport of a server for one workspace: standard input and output under any other name.
pub open spec fn workspace_transport(name: Seq<char>) -> TransportType {
    if name == "sse"@ {
        TransportType::Sse
    } else if name == "ws"@ {
        TransportType::WebSocket
    } else {
        TransportType::Stdio
    }
}

impl Args {
    /// The settings of the server where no file holds them: the workspace, or the current
    /// directory, is where the resources are found.
    pub fn into_config(self) -> (config: ServerConfig)
        ensures
            config.server.transport == workspace_transport(self.transport@),
            config.server.port == self.port,
            config.server.name@ == "mcp-server"@,
            config.server.version@ == "0.1.0"@,
            config.server.host@ == "127.0.0.1"@,
            config.server.max_connections == 100,
            config.server.timeout_ms == 30000,
            match self.workspace {
                Some(workspace) => config.resources.root_path == workspace,
                None => config.resources.root_path@ == "."@,
            },
            config::holds_only(config.resources.allowed_schemes@, "file"@),
            config.resources.max_file_size == 10 * 1024 * 1024,
            config.resources.enable_templates,
            config.security.is_default(),
            config.logging.is_default(),
            config.tools.is_default(),
    {
        let mut config: ServerConfig = ServerConfig::default();
        config.resources.root_path = match self.workspace {
            Some(workspace) => workspace,
            None => ".".to_owned(),
        };
        config.server.port = self.port;
        proof {
            reveal_strlit("sse");
            reveal_strlit("ws");
            assert("sse"@.len() != "ws"@.len());
        }
        config.server.transport = if same_text(self.transport.as_str(), "sse") {
            TransportType::Sse
        } else if same_text(self.transport.as_str(), "ws") {
            TransportType::WebSocket
        } else {
            TransportType::Stdio
        };
        config
    }
}

/// How many messages may wait in a client's transport.
pub const CLIENT_BUFFER_SIZE: usize = 32;

/// The transport of a client.
#[derive(Debug)]
pub enum ClientTransport {
    Stdio(StdioTransport),
    Sse(SseTransport),
}

/// The host and the port that `url::Url::parse` finds in a text, each where the url has one;
/// nothing where the text is no url. A port that is the scheme's own counts as none.
pub uninterp spec fn url_parts(text: Seq<char>) -> Option<(Option<Seq<char>>, Option<u16>)>;

/// What the parts of a url say.
pub open spec fn parts_view(parts: Option<(Option<String>, Option<u16>)>) -> Option<
    (Option<Seq<char>>, Option<u16>),
> {
    match parts {
        Some((host, port)) => Some((json::text_view(host), port)),
        None => None,
    }
}

/// Calls `url::Url::parse`, and `host_str` and `port` on what it gives. The result rests on the
/// text alone; which texts are urls, and what their hosts are, is left to that crate.
#[verifier::external_body]
fn parse_url(text: &str) -> (parts: Option<(Option<String>, Option<u16>)>)
    ensures
        parts_view(parts) == url_parts(text@),
{
    let url = url::Url::parse(text).ok()?;
    Some((url.host_str().map(|host| host.to_string()), url.port()))
}

/// The host of a server and its port, by the parts of its url: this machine and port 3000 where
/// the url names none.
pub open spec fn server_address(host: Option<Seq<char>>, port: Option<u16>) -> (Seq<char>, u16) {
    (
        match host {
            Some(host) => host,
            None => "127.0.0.1"@,
        },
        match port {
            Some(port) => port,
            None => 3000,
        },
    )
}

/// The transport over HTTP to the server whose url has these parts.
pub fn sse_transport(host: Option<String>, port: Option<u16>) -> (transport: SseTransport)
    ensures
        transport@ == (SseTransportView {
            host: server_address(json::text_view(host), port).0,
            port: server_address(json::text_view(host), port).1,
            client_mode: true,
            buffer_size: CLIENT_BUFFER_SIZE,
        }),
{
    let host: String = match host {
        Some(host) => host,
        None => "127.0.0.1".to_owned(),
    };
    let port: u16 = match port {
        Some(port) => port,
        None => 3000,
    };
    SseTransport::new_client(host, port, CLIENT_BUFFER_SIZE)
}

/// What an optional text reference holds.
pub open spec fn text_ref_view(text: Option<&str>) -> Option<Seq<char>> {
    match text {
        Some(text) => Some(text@),
        None => None,
    }
}

/// The transport that a client's command line names can be had: a server over HTTP has a url.
pub open spec fn can_be_had(transport: Seq<char>, server: Option<Seq<char>>) -> bool {
    transport == "sse"@ && server is Some ==> url_parts(server->0) is Some
}

/// What a client's transport is by its command line.
pub open spec fn is_named_transport(
    transport: Seq<char>,
    server: Option<Seq<char>>,
    chosen: Result<ClientTransport, McpError>,
) -> bool {
    if transport == "stdio"@ {
        &&& chosen matches Ok(ClientTransport::Stdio(stdio))
        &&& stdio.capacity() == CLIENT_BUFFER_SIZE
    } else if transport == "sse"@ {
        match server {
            Some(server) => {
                let parts = url_parts(server)->0;
                &&& chosen matches Ok(ClientTransport::Sse(sse))
                &&& sse@ == SseTransportView {
                    host: server_address(parts.0, parts.1).0,
                    port: server_address(parts.0, parts.1).1,
                    client_mode: true,
                    buffer_size: CLIENT_BUFFER_SIZE,
                }
            },
            None => {
                &&& chosen matches Err(error)
                &&& error@ == McpErrorView::InvalidRequest(
                    "Server URL required for SSE transport"@,
                )
            },
        }
    } else {
        &&& chosen matches Err(error)
        &&& error@ == McpErrorView::InvalidRequest("Invalid transport type"@)
    }
}

/// The transport that a client's command line names.
pub fn client_transport(transport: &str, server: Option<&str>) -> (chosen: Result<
    ClientTransport,
    McpError,
>)
    requires
        can_be_had(transport@, text_ref_view(server)),
    ensures
        is_named_transport(transport@, text_ref_view(server), chosen),
{
    proof {
        reveal_strlit("stdio");
        reveal_strlit("sse");
        assert("stdio"@.len() != "sse"@.len());
    }
    if same_text(transport, "stdio") {
        Ok(ClientTransport::Stdio(StdioTransport::new(Some(CLIENT_BUFFER_SIZE))))
    } else if same_text(transport, "sse") {
        match server {
            Some(server) => {
                let (host, port) = parse_url(server).unwrap();
                Ok(ClientTransport::Sse(sse_transport(host, port)))
            },
            None => Err(
                McpError::InvalidRequest("Server URL required for SSE transport".to_owned()),
            ),
        }
    } else {
        Err(McpError::InvalidRequest("Invalid transport type".to_owned()))
    }
}

/// The transport that a client's command line names, or nothing where it cannot be had: where
/// the url of the server is none.
pub fn try_client_transport(transport: &str, server: Option<&str>) -> (chosen: Option<
    Result<ClientTransport, McpError>,
>)
    ensures
        match chosen {
            Some(chosen) => {
                &&& can_be_had(transport@, text_ref_view(server))
                &&& is_named_transport(transport@, text_ref_view(server), chosen)
            },
            None => !can_be_had(transport@, text_ref_view(server)),
        },
{
    if same_text(transport, "sse") {
        if let Some(url) = server {
            if parse_url(url).is_none() {
                return None;
            }
        }
    }
    Some(client_transport(transport, server))
}

/// Who the client of the command line is.
pub fn client_info() -> (info: ClientInfo)
    ensures
        info@ == (InfoView { name: "mcp-cli"@, version: "0.1.0"@ }),
{
    ClientInfo { name: "mcp-cli".to_owned(), version: version() }
}

/// What the client of the command line is to do.
#[derive(Debug)]
#[allow(inconsistent_fields)]
pub enum ClientCommand {
    ListResources { cursor: Option<String> },
    ReadResource { uri: String },
    Subscribe { uri: String },
    ListPrompts { cursor: Option<String> },
    GetPrompt { name: String, args: Option<String> },
    ListTools { cursor: Option<String> },
    CallTool { name: String, args: String },
    SetLogLevel { level: String },
}

/// A request: the capability that it needs, its method and its parameters.
pub struct QuestionView {
    pub capability: Seq<char>,
    pub method: Seq<char>,
    pub params: JsonView,
}

/// The request that a command calls for; nothing where its arguments are no JSON.
pub open spec fn question(command: ClientCommand) -> Option<QuestionView> {
    match command {
        ClientCommand::ListResources { cursor } => Some(
            QuestionView {
                capability: "resources"@,
                method: "resources/list"@,
                params: resource::cursor_json(json::text_view(cursor)),
            },
        ),
        ClientCommand::ReadResource { uri } => Some(
            QuestionView {
                capability: "resources"@,
                method: "resources/read"@,
                params: resource::uri_json(uri@),
            },
        ),
        ClientCommand::Subscribe { uri } => Some(
            QuestionView {
                capability: "resources"@,
                method: "resources/subscribe"@,
                params: JsonView::Str(uri@),
            },
        ),
        ClientCommand::ListPrompts { cursor } => Some(
            QuestionView {
                capability: "prompts"@,
                method: "prompts/list"@,
                params: resource::cursor_json(json::text_view(cursor)),
            },
        ),
        ClientCommand::GetPrompt { name, args } => {
            let arguments = match args {
                Some(args) => json::json_parse(args@),
                None => None,
            };
            if args is Some && arguments is None {
                None
            } else {
                Some(
                    QuestionView {
                        capability: "prompts"@,
                        method: "prompts/get"@,
                        params: prompts::prompt_json(name@, arguments),
                    },
                )
            }
        },
        ClientCommand::ListTools { cursor } => Some(
            QuestionView {
                capability: "tools"@,
                method: "tools/list"@,
                params: resource::cursor_json(json::text_view(cursor)),
            },
        ),
        ClientCommand::CallTool { name, args } => match json::json_parse(args@) {
            Some(arguments) => Some(
                QuestionView {
                    capability: "tools"@,
                    method: "tools/call"@,
                    params: tools::call_json(name@, arguments),
                },
            ),
            None => None,
        },
        ClientCommand::SetLogLevel { level } => Some(
            QuestionView {
                capability: "logging"@,
                method: "logging/setLevel"@,
                params: logging::level_json(level@),
            },
        ),
    }
}

/// The arguments that a command line gives as JSON.
pub fn read_arguments(args: &str) -> (arguments: Result<Json, McpError>)
    ensures
        match arguments {
            Ok(arguments) => json::json_parse(args@) == Some(arguments@),
            Err(error) => {
                &&& json::json_parse(args@) is None
                &&& error@ == McpErrorView::InvalidRequest("Invalid JSON arguments"@)
            },
        },
{
    match Json::parse(args) {
        Some(arguments) => Ok(arguments),
        None => Err(McpError::InvalidRequest("Invalid JSON arguments".to_owned())),
    }
}

/// Makes the request that a command calls for.
pub fn execute<W>(client: &mut Client<W>, command: ClientCommand, handler: W) -> (made: Result<
    PendingRequest,
    McpError,
>)
    requires
        old(client).wf(),
        old(client)@.protocol.last_id < u64::MAX,
    ensures
        final(client).wf(),
        match question(command) {
            Some(question) => old(client)@.asked(
                question.capability,
                question.method,
                question.params,
                handler,
                final(client)@,
                made,
            ),
            None => {
                &&& final(client)@ == old(client)@
                &&& made matches Err(error)
                &&& error@ == McpErrorView::InvalidRequest("Invalid JSON arguments"@)
            },
        },
{
    match command {
        ClientCommand::ListResources { cursor } => client.list_resources(cursor, handler),
        ClientCommand::ReadResource { uri } => client.read_resource(uri, handler),
        ClientCommand::Subscribe { uri } => client.subscribe_to_resource(uri, handler),
        ClientCommand::ListPrompts { cursor } => client.list_prompts(cursor, handler),
        ClientCommand::GetPrompt { name, args } => {
            let arguments: Option<Json> = match args {
                Some(args) => match read_arguments(args.as_str()) {
                    Ok(arguments) => Some(arguments),
                    Err(error) => {
                        return Err(error);
                    },
                },
                None => None,
            };
            client.get_prompt(name, arguments, handler)
        },
        ClientCommand::ListTools { cursor } => client.list_tools(cursor, handler),
        ClientCommand::CallTool { name, args } => match read_arguments(args.as_str()) {
            Ok(arguments) => client.call_tool(name, arguments, handler),
            Err(error) => Err(error),
        },
        ClientCommand::SetLogLevel { level } => client.set_log_level(level, handler),
    }
}

/// What a response to a command is to be.
#[derive(Debug, Clone, Copy)]
pub enum Expected {
    /// A structure, which is shown.
    Record,
    /// A structure with a list of resources in it, which is shown.
    ResourceList,
    /// A structure with a list of prompts in it, which is shown.
    PromptList,
    /// A list of tools, which is shown.
    ToolList,
    /// What a tool gave back, which is shown.
    ToolResult,
    /// Nothing, which is shown.
    Shown,
    /// Nothing, which is not shown.
    Silent,
}

impl ClientCommand {
    /// What the response is to be.
    pub fn expected(&self) -> (expected: Expected)
        ensures
            expected == match self {
                ClientCommand::ListResources { .. } => Expected::ResourceList,
                ClientCommand::ReadResource { .. } => Expected::Record,
                ClientCommand::Subscribe { .. } => Expected::Shown,
                ClientCommand::ListPrompts { .. } => Expected::PromptList,
                ClientCommand::GetPrompt { .. } => Expected::Record,
                ClientCommand::ListTools { .. } => Expected::ToolList,
                ClientCommand::CallTool { .. } => Expected::ToolResult,
                ClientCommand::SetLogLevel { .. } => Expected::Silent,
            },
    {
        match self {
            ClientCommand::ListResources { .. } => Expected::ResourceList,
            ClientCommand::ReadResource { .. } => Expected::Record,
            ClientCommand::Subscribe { .. } => Expected::Shown,
            ClientCommand::ListPrompts { .. } => Expected::PromptList,
            ClientCommand::GetPrompt { .. } => Expected::Record,
            ClientCommand::ListTools { .. } => Expected::ToolList,
            ClientCommand::CallTool { .. } => Expected::ToolResult,
            ClientCommand::SetLogLevel { .. } => Expected::Silent,
        }
    }
}

/// The value is how a structure is written: an object, or an array of its fields.
pub open spec fn is_structure(value: JsonView) -> bool {
    value is Object || value is Array
}

/// The value is how a structure with a list in it is written: an object with an array under the
/// name of the list, or an array of fields of which one is an array.
pub open spec fn has_list(value: JsonView, name: Seq<char>) -> bool {
    match value {
        JsonView::Object(members) => json::lookup(members, name) matches Some(list) && list
            is Array,
        JsonView::Array(items) => exists|i: int|
            0 <= i < items.len() && (#[trigger] items[i]) is Array,
        _ => false,
    }
}

/// Whether the value is how a structure is written.
fn reads_as_structure(value: &Json) -> (reads: bool)
    ensures
        reads == is_structure(value@),
{
    match value {
        Json::Object(_) => true,
        Json::Array(_) => true,
        _ => false,
    }
}

/// Whether the value is how a structure with a list in it is written.
fn reads_with_list(value: &Json, name: &str) -> (reads: bool)
    ensures
        reads == has_list(value@, name@),
{
    match value {
        Json::Object(members) => {
            proof {
                json::object_view(*members);
            }
            match value.get(name) {
                Some(Json::Array(_)) => true,
                _ => false,
            }
        },
        Json::Array(items) => {
            proof {
                json::array_view(*items);
            }
            let mut i: usize = 0;
            while i < items.len()
                invariant
                    i <= items.len(),
                    value@ == JsonView::Array(json::items_view(items@)),
                    forall|k: int| 0 <= k < i ==> !((#[trigger] items@[k]@) is Array),
                decreases items.len() - i,
            {
                if let Json::Array(_) = &items[i] {
                    assert(json::items_view(items@)[i as int] is Array);
                    return true;
                }
                i += 1;
            }
            assert forall|k: int| 0 <= k < items@.len() implies !((
            #[trigger] json::items_view(items@)[k]) is Array) by {
                assert(!(items@[k]@ is Array));
            }
            false
        },
        _ => false,
    }
}

impl Expected {
    /// What is shown of a response's value.
    pub open spec fn shown(self, value: JsonView) -> Result<Option<JsonView>, McpErrorView> {
        match self {
            Expected::Record => if is_structure(value) {
                Ok(Some(value))
            } else {
                Err(McpErrorView::InvalidParams)
            },
            Expected::ResourceList => if has_list(value, "resources"@) {
                Ok(Some(value))
            } else {
                Err(McpErrorView::InvalidParams)
            },
            Expected::PromptList => if has_list(value, "prompts"@) {
                Ok(Some(value))
            } else {
                Err(McpErrorView::InvalidParams)
            },
            Expected::ToolList => match tools::list_of_json(value) {
                Some((list, next_cursor)) => Ok(Some(tools::list_json(list, next_cursor))),
                None => Err(McpErrorView::InvalidParams),
            },
            Expected::ToolResult => match ToolResultView::of_json(value) {
                Some(result) => Ok(Some(result.json())),
                None => Err(McpErrorView::InvalidParams),
            },
            Expected::Shown => if value is Null {
                Ok(Some(JsonView::Null))
            } else {
                Err(McpErrorView::InvalidParams)
            },
            Expected::Silent => if value is Null {
                Ok(None)
            } else {
                Err(McpErrorView::InvalidParams)
            },
        }
    }

    /// What is shown of a response's value.
    pub fn show(self, value: Json) -> (shown: Result<Option<Json>, McpError>)
        ensures
            match shown {
                Ok(shown) => self.shown(value@) == Ok::<Option<JsonView>, McpErrorView>(
                    json::optional_view(shown),
                ),
                Err(error) => self.shown(value@) == Err::<Option<JsonView>, McpErrorView>(error@),
            },
    {
        match self {
            Expected::Record => if reads_as_structure(&value) {
                Ok(Some(value))
            } else {
                Err(McpError::InvalidParams)
            },
            Expected::ResourceList => if reads_with_list(&value, "resources") {
                Ok(Some(value))
            } else {
                Err(McpError::InvalidParams)
            },
            Expected::PromptList => if reads_with_list(&value, "prompts") {
                Ok(Some(value))
            } else {
                Err(McpError::InvalidParams)
            },
            Expected::ToolList => match ListToolsResponse::from_json(&value) {
                Some(list) => Ok(Some(list.to_json())),
                None => Err(McpError::InvalidParams),
            },
            Expected::ToolResult => match ToolResult::from_json(&value) {
                Some(result) => Ok(Some(result.to_json())),
                None => Err(McpError::InvalidParams),
            },
            Expected::Shown => match expect_nothing(&value) {
                Ok(()) => Ok(Some(Json::Null)),
                Err(error) => Err(error),
            },
            Expected::Silent => match expect_nothing(&value) {
                Ok(()) => Ok(None),
                Err(error) => Err(error),
            },
        }
    }
}

} // verus!
