use mcp_rs::capability::Capability;
use mcp_rs::client::types::{InitializeParams, InitializeResult};
use mcp_rs::client::{
    expect_nothing, Client, ClientCapabilities, ClientInfo, RootsCapabilities,
    SamplingCapabilities, ServerCapabilities, ServerInfo,
};
use mcp_rs::error::McpError;
use mcp_rs::json::Json;
use mcp_rs::logging::LoggingCapabilities;
use mcp_rs::prompts::PromptCapabilities;
use mcp_rs::protocol::{Incoming, JsonRpcResponse, PendingRequest, Protocol, RequestOutcome};
use mcp_rs::resource::ResourceCapabilities;
use mcp_rs::server::config::ServerConfig;
use mcp_rs::server::{McpServer, ServerCall, ServerHandler};
use mcp_rs::tools::ToolCapabilities;
use mcp_rs::transport::sse::{SseClientStep, SseRole, SseServer, SseServerStep};
use mcp_rs::transport::{
    JsonRpcMessage, SseTransport, StdioTransport, TransportCommand, TransportEvent,
};

fn json(text: &str) -> Json {
    Json::parse(text).unwrap()
}

fn info() -> ClientInfo {
    ClientInfo { name: "test-client".to_string(), version: "1.0.0".to_string() }
}

fn sent(made: &PendingRequest) -> String {
    match &made.command {
        TransportCommand::SendMessage(message) => message.encode().unwrap(),
        TransportCommand::Close => panic!("Expected a message"),
    }
}

// The server answers a request of the client with `result`.
fn answer(client: &mut Client<u32>, made: PendingRequest, waiter: u32, result: Json) -> Json {
    let response = JsonRpcResponse {
        jsonrpc: "2.0".to_string(),
        id: made.id,
        result: Some(result),
        error: None,
    };
    let event = TransportEvent::Message(JsonRpcMessage::Response(response));
    match client.handle_event(Some(event)) {
        Incoming::Response { handler, response } => {
            assert_eq!(handler, waiter);
            client.finish_request(made.id, RequestOutcome::Response(response)).unwrap()
        }
        _ => panic!("Expected a response"),
    }
}

fn introduction(capabilities: &str) -> Json {
    json(&format!(
        r#"{{"protocol_version":"2024-11-05","capabilities":{},"server_info":{{"name":"s","version":"1"}}}}"#,
        capabilities
    ))
}

const EVERYTHING: &str = r#"{
    "logging": {},
    "prompts": {"list_changed": true},
    "resources": {"subscribe": true, "list_changed": true},
    "tools": {"list_changed": true}
}"#;

fn meet(client: &mut Client<u32>, capabilities: &str) -> InitializeResult {
    client.connect(Ok(())).unwrap();
    let made = client.initialize(info(), 1).unwrap();
    let value = answer(client, made, 1, introduction(capabilities));
    let (result, command) = client.accept_initialize(&value).unwrap();
    match command {
        TransportCommand::SendMessage(message) => assert_eq!(
            message.encode().unwrap(),
            r#"{"jsonrpc":"2.0","method":"initialized","params":null}"#
        ),
        TransportCommand::Close => panic!("Expected a message"),
    }
    client.confirm_initialized(true).unwrap();
    result
}

#[test]
fn test_client_lifecycle() {
    let mut client: Client<u32> = Client::new();

    let transport = StdioTransport::new(Some(32));
    assert_eq!(transport.buffer_size(), 32);

    let result = meet(&mut client, EVERYTHING);
    assert_eq!(result.server_info.name, "s");

    let made = client.list_resources(None, 2).unwrap();
    assert_eq!(
        sent(&made),
        r#"{"jsonrpc":"2.0","id":2,"method":"resources/list","params":{"cursor":null}}"#
    );
    let value = answer(&mut client, made, 2, json(r#"{"resources":[{"uri":"file:///a"}]}"#));
    assert!(matches!(value.get("resources"), Some(Json::Array(items)) if !items.is_empty()));

    let made = client.list_prompts(None, 3).unwrap();
    let value = answer(&mut client, made, 3, json(r#"{"prompts":[{"name":"p"}]}"#));
    assert!(matches!(value.get("prompts"), Some(Json::Array(items)) if !items.is_empty()));

    assert!(matches!(client.shutdown(), Ok(Some(TransportCommand::Close))));
    assert!(matches!(client.shutdown(), Ok(None)));
}

#[test]
fn test_sse_client() {
    const SERVER_HOST: &str = "127.0.0.1";
    const SERVER_PORT: u16 = 3030;

    let server_config = ServerConfig::default();
    let server: McpServer<()> = McpServer::new(server_config);
    let (server_transport, mut protocol) = server.run_sse_transport();
    protocol.connect(Ok(())).unwrap();
    let mut listener = match server_transport.start() {
        SseRole::Server(listener) => listener,
        SseRole::Client { .. } => panic!("Expected a server"),
    };

    let mut client: Client<u32> = Client::new();
    let transport = SseTransport::new_client(SERVER_HOST.to_string(), SERVER_PORT, 32);
    assert!(matches!(transport.start(), SseRole::Client { .. }));
    client.connect(Ok(())).unwrap();
    let told = SseServer::endpoint_event(&listener.accept_client().endpoint);
    assert!(SseTransport::read_endpoint(&told.event, &told.data).is_some());

    let made = client.initialize(info(), 1).unwrap();
    let body = match SseTransport::post_command(&made.command) {
        SseClientStep::Post(body) => body,
        _ => panic!("Expected a post"),
    };
    let request = match protocol.handle_event(SseServer::receive_post(&body)) {
        Incoming::Request(request) => request,
        _ => panic!("Expected a request"),
    };
    let handler: ServerHandler = *protocol.request_handler(&request.method).unwrap();
    assert!(handler.accepts(&request));
    assert!(matches!(handler.handle(&request), ServerCall::Initialize));
    let command = Protocol::<ServerHandler, (), (), ()>::respond(
        request.id,
        Ok(server.introduce().to_json()),
    );
    let event = match SseServer::forward(command) {
        SseServerStep::Broadcast(message) => SseServer::message_event(&message).unwrap(),
        _ => panic!("Expected a broadcast"),
    };
    let value = match client.handle_event(SseTransport::read_event(&event.event, &event.data)) {
        Incoming::Response { response, .. } => {
            client.finish_request(made.id, RequestOutcome::Response(response)).unwrap()
        }
        _ => panic!("Expected a response"),
    };
    let (result, _) = client.accept_initialize(&value).unwrap();
    client.confirm_initialized(true).unwrap();

    assert!(result.capabilities.resources.is_some());
    assert!(client.has_capability("resources"));
    assert!(client.has_capability("tools"));
    assert!(!client.has_capability("prompts"));
    assert!(!client.has_capability("logging"));

    client.shutdown().unwrap();
}

#[test]
fn a_client_introduces_itself() {
    let mut client: Client<u32> = Client::new();
    client.connect(Ok(())).unwrap();
    let made = client.initialize(info(), 1).unwrap();
    assert_eq!(made.id, 1);
    assert_eq!(made.timeout_ms, 60000);
    assert_eq!(
        sent(&made),
        r#"{"jsonrpc":"2.0","id":1,"method":"initialize","params":{"protocol_version":"2024-11-05","capabilities":{"roots":{"list_changed":true},"sampling":{}},"client_info":{"name":"test-client","version":"1.0.0"}}}"#
    );
}

#[test]
fn a_client_meets_its_server_once() {
    let mut client: Client<u32> = Client::new();
    meet(&mut client, EVERYTHING);
    match client.initialize(info(), 2) {
        Err(McpError::InvalidRequest(reason)) => assert_eq!(reason, "Client already initialized"),
        _ => panic!("Expected InvalidRequest error"),
    }
    client.shutdown().unwrap();
    client.connect(Ok(())).unwrap();
    assert!(matches!(client.initialize(info(), 2), Err(McpError::InvalidRequest(_))));
    assert!(client.get_server_capabilities().unwrap().logging.is_some());
    // The refused requests took no id.
    assert_eq!(client.list_tools(None, 2).unwrap().id, 2);
}

#[test]
fn a_capability_is_there_where_asserting_it_succeeds() {
    let mut client: Client<u32> = Client::new();
    let names = ["logging", "prompts", "resources", "tools", "roots", ""];
    for name in names {
        assert!(!client.has_capability(name));
        assert!(matches!(client.assert_capability(name), Err(McpError::InvalidRequest(_))));
    }
    meet(&mut client, r#"{"prompts":{"list_changed":true},"tools":{"list_changed":true}}"#);
    for name in names {
        assert_eq!(client.has_capability(name), client.assert_capability(name).is_ok());
        assert_eq!(client.has_capability(name), name == "prompts" || name == "tools");
    }
}

#[test]
fn nothing_is_asked_of_a_server_that_was_not_met() {
    let mut client: Client<u32> = Client::new();
    client.connect(Ok(())).unwrap();
    match client.call_tool("t".to_string(), Json::Null, 1) {
        Err(McpError::InvalidRequest(reason)) => assert_eq!(reason, "Client not initialized"),
        _ => panic!("Expected InvalidRequest error"),
    }
    assert!(matches!(client.shutdown(), Err(McpError::InvalidRequest(_))));
    assert!(client.assert_initialized().is_err());
    assert!(client.get_server_capabilities().is_none());
    assert!(!client.has_capability("tools"));
    // The refused request took no id.
    assert_eq!(client.initialize(info(), 1).unwrap().id, 1);
}

#[test]
fn what_a_server_cannot_do_is_not_asked() {
    let mut client: Client<u32> = Client::new();
    meet(&mut client, r#"{"logging":null,"tools":{"list_changed":false}}"#);
    assert!(client.assert_initialized().is_ok());
    assert!(client.has_capability("tools"));
    assert!(!client.has_capability("Tools"));
    assert!(!client.has_capability("anything"));
    let refused = |made: Result<PendingRequest, McpError>| match made {
        Err(McpError::CapabilityNotSupported(name)) => name,
        _ => panic!("Expected CapabilityNotSupported error"),
    };
    assert_eq!(refused(client.list_resources(None, 2)), "resources");
    assert_eq!(refused(client.read_resource("u".to_string(), 2)), "resources");
    assert_eq!(refused(client.subscribe_to_resource("u".to_string(), 2)), "resources");
    assert_eq!(refused(client.list_prompts(None, 2)), "prompts");
    assert_eq!(refused(client.get_prompt("p".to_string(), None, 2)), "prompts");
    assert_eq!(refused(client.set_log_level("debug".to_string(), 2)), "logging");
    assert_eq!(client.list_tools(None, 2).unwrap().id, 2);
}

#[test]
fn every_request_says_what_it_asks() {
    let mut client: Client<u32> = Client::new();
    meet(&mut client, EVERYTHING);
    let made = client.read_resource("file:///a".to_string(), 2).unwrap();
    assert_eq!(
        sent(&made),
        r#"{"jsonrpc":"2.0","id":2,"method":"resources/read","params":{"uri":"file:///a"}}"#
    );
    let made = client.subscribe_to_resource("file:///a".to_string(), 2).unwrap();
    assert_eq!(
        sent(&made),
        r#"{"jsonrpc":"2.0","id":3,"method":"resources/subscribe","params":"file:///a"}"#
    );
    let made = client.list_prompts(Some("c".to_string()), 2).unwrap();
    assert_eq!(
        sent(&made),
        r#"{"jsonrpc":"2.0","id":4,"method":"prompts/list","params":{"cursor":"c"}}"#
    );
    let made = client.get_prompt("p".to_string(), Some(json(r#"{"x":1}"#)), 2).unwrap();
    assert_eq!(
        sent(&made),
        r#"{"jsonrpc":"2.0","id":5,"method":"prompts/get","params":{"name":"p","arguments":{"x":1}}}"#
    );
    let made = client.list_tools(None, 2).unwrap();
    assert_eq!(
        sent(&made),
        r#"{"jsonrpc":"2.0","id":6,"method":"tools/list","params":{"cursor":null}}"#
    );
    let made = client.call_tool("t".to_string(), json("[1]"), 2).unwrap();
    assert_eq!(
        sent(&made),
        r#"{"jsonrpc":"2.0","id":7,"method":"tools/call","params":{"name":"t","arguments":[1]}}"#
    );
    let made = client.set_log_level("debug".to_string(), 2).unwrap();
    assert_eq!(
        sent(&made),
        r#"{"jsonrpc":"2.0","id":8,"method":"logging/setLevel","params":{"level":"debug"}}"#
    );
}

#[test]
fn a_server_of_another_version_is_refused() {
    let mut client: Client<u32> = Client::new();
    client.connect(Ok(())).unwrap();
    let value = json(
        r#"{"protocol_version":"2023-01-01","capabilities":{},"server_info":{"name":"s","version":"1"}}"#,
    );
    match client.accept_initialize(&value) {
        Err(McpError::InvalidRequest(reason)) => {
            assert_eq!(reason, "Unsupported protocol version: 2023-01-01")
        }
        _ => panic!("Expected InvalidRequest error"),
    }
    assert!(client.get_server_capabilities().is_none());
    assert!(matches!(client.accept_initialize(&Json::Null), Err(McpError::InvalidParams)));
    let lame = json(r#"{"protocol_version":"2024-11-05","capabilities":{}}"#);
    assert!(matches!(client.accept_initialize(&lame), Err(McpError::InvalidParams)));
}

#[test]
fn a_meeting_that_breaks_off_leaves_the_client_unmet() {
    let mut client: Client<u32> = Client::new();
    client.connect(Ok(())).unwrap();
    client.accept_initialize(&introduction("{}")).unwrap();
    assert!(matches!(client.confirm_initialized(false), Err(McpError::ConnectionClosed)));
    assert!(client.assert_initialized().is_err());
    assert!(client.get_server_capabilities().is_some());

    let mut client: Client<u32> = Client::new();
    assert!(matches!(
        client.accept_initialize(&introduction("{}")),
        Err(McpError::NotConnected)
    ));
    assert!(client.get_server_capabilities().is_some());
    assert!(matches!(client.initialize(info(), 1), Err(McpError::NotConnected)));
    assert!(matches!(
        client.connect(Err(McpError::ConnectionClosed)),
        Err(McpError::ConnectionClosed)
    ));
}

#[test]
fn nothing_is_null() {
    assert!(expect_nothing(&Json::Null).is_ok());
    assert!(matches!(expect_nothing(&json("{}")), Err(McpError::InvalidParams)));
}

#[test]
fn capabilities_are_read_from_their_json() {
    let server = ServerCapabilities {
        logging: Some(LoggingCapabilities {}),
        prompts: None,
        resources: Some(ResourceCapabilities { subscribe: true, list_changed: false }),
        tools: Some(ToolCapabilities { list_changed: true }),
    };
    let text = server.to_json().render().unwrap();
    assert_eq!(
        text,
        r#"{"logging":{},"prompts":null,"resources":{"subscribe":true,"list_changed":false},"tools":{"list_changed":true}}"#
    );
    let read = ServerCapabilities::from_json(&json(&text)).unwrap();
    assert!(read.logging.is_some() && read.prompts.is_none() && read.tools.is_some());
    assert!(read.resources.unwrap().subscribe);
    assert!(!read.resources.unwrap().list_changed);

    let client = ClientCapabilities { roots: None, sampling: Some(SamplingCapabilities {}) };
    assert_eq!(client.to_json().render().unwrap(), r#"{"sampling":{}}"#);
    let read = ClientCapabilities::from_json(&client.to_json()).unwrap();
    assert!(read.roots.is_none() && read.sampling.is_some());
    let client =
        ClientCapabilities { roots: Some(RootsCapabilities { list_changed: true }), sampling: None };
    assert_eq!(client.to_json().render().unwrap(), r#"{"roots":{"list_changed":true}}"#);

    assert!(PromptCapabilities::from_json(&json(r#"{"list_changed":true}"#)).unwrap().list_changed);
    assert!(PromptCapabilities::from_json(&json("{}")).is_none());
    assert!(ServerCapabilities::from_json(&json(r#"{"tools":{}}"#)).is_none());
    assert!(ServerCapabilities::from_json(&json("[null,null,null]")).is_none());
    assert!(ServerCapabilities::from_json(&json("[null,null,null,null]")).is_some());
    assert!(LoggingCapabilities::from_json(&json("[]")).is_some());
    assert!(LoggingCapabilities::from_json(&json("1")).is_none());
}

#[test]
fn introductions_are_read_from_their_json() {
    let params = InitializeParams {
        protocol_version: "v".to_string(),
        capabilities: ClientCapabilities { roots: None, sampling: None },
        client_info: info(),
    };
    let read = InitializeParams::from_json(&params.to_json()).unwrap();
    assert_eq!(read.protocol_version, "v");
    assert_eq!(read.client_info.name, "test-client");
    assert_eq!(read.client_info.version, "1.0.0");
    assert!(read.capabilities.roots.is_none());

    let result = InitializeResult {
        protocol_version: "v".to_string(),
        capabilities: ServerCapabilities {
            logging: None,
            prompts: Some(PromptCapabilities { list_changed: false }),
            resources: None,
            tools: None,
        },
        server_info: ServerInfo { name: "s".to_string(), version: "2".to_string() },
    };
    let read = InitializeResult::from_json(&result.to_json()).unwrap();
    assert_eq!(read.server_info.version, "2");
    assert!(!read.capabilities.prompts.unwrap().list_changed);
    assert!(InitializeParams::from_json(&result.to_json()).is_none());
}
