use mcp_rs::cli::{
    client_info, client_transport, execute, read_arguments, sse_transport, try_client_transport,
    Args, Cli, ClientCommand, ClientTransport, Expected,
};
use mcp_rs::client::Client;
use mcp_rs::error::McpError;
use mcp_rs::json::Json;
use mcp_rs::server::config::{ServerConfig, TransportType};
use mcp_rs::transport::TransportCommand;

fn json(text: &str) -> Json {
    Json::parse(text).unwrap()
}

#[test]
fn an_empty_command_line() {
    let cli = Cli::default();
    assert_eq!(cli.transport, "stdio");
    assert_eq!(cli.port, 3000);
    assert_eq!(cli.log_level, "info");
    assert!(cli.config.is_none() && cli.resource_root.is_none());
    let config = cli.apply(ServerConfig::default()).unwrap();
    assert_eq!(config.server.transport, TransportType::Stdio);
    assert_eq!(config.resources.root_path, "./resources");
}

#[test]
fn the_command_line_counts_over_the_settings() {
    let cli = Cli {
        config: None,
        transport: "sse".to_string(),
        port: 4000,
        log_level: "debug".to_string(),
        resource_root: Some("/data".to_string()),
    };
    let config = cli.apply(ServerConfig::default()).unwrap();
    assert_eq!(config.server.transport, TransportType::Sse);
    assert_eq!(config.server.port, 4000);
    assert_eq!(config.server.name, "mcp-server");
    assert_eq!(config.logging.level, "debug");
    assert_eq!(config.resources.root_path, "/data");
    assert_eq!(config.resources.max_file_size, 10485760);

    let cli = Cli { transport: "websocket".to_string(), ..Cli::default() };
    let config = cli.apply(ServerConfig::default()).unwrap();
    assert_eq!(config.server.transport, TransportType::WebSocket);

    let cli = Cli { transport: "ws".to_string(), ..Cli::default() };
    match cli.apply(ServerConfig::default()) {
        Err(McpError::Custom { code, message }) => {
            assert_eq!(code, -32000);
            assert_eq!(message, "Invalid transport type");
        }
        _ => panic!("Expected Custom error"),
    }
}

#[test]
fn a_server_for_one_workspace() {
    let config = |transport: &str, workspace: Option<&str>| {
        Args {
            workspace: workspace.map(|workspace| workspace.to_string()),
            port: 5000,
            transport: transport.to_string(),
        }
        .into_config()
    };
    let here = config("stdio", None);
    assert_eq!(here.resources.root_path, ".");
    assert_eq!(here.resources.allowed_schemes, vec!["file".to_string()]);
    assert_eq!(here.server.port, 5000);
    assert_eq!(here.server.max_connections, 100);
    assert_eq!(here.server.transport, TransportType::Stdio);
    assert_eq!(here.logging.level, "info");
    assert_eq!(config("sse", Some("/w")).resources.root_path, "/w");
    assert_eq!(config("sse", None).server.transport, TransportType::Sse);
    assert_eq!(config("ws", None).server.transport, TransportType::WebSocket);
    assert_eq!(config("anything", None).server.transport, TransportType::Stdio);
}

fn address(server: &str) -> Option<(String, u16)> {
    match try_client_transport("sse", Some(server)) {
        Some(Ok(ClientTransport::Sse(transport))) => {
            assert_eq!(transport.buffer_size(), 32);
            Some((transport.host().to_string(), transport.port()))
        }
        None => None,
        _ => panic!("Expected a transport over HTTP"),
    }
}

#[test]
fn the_server_of_a_client_by_its_url() {
    assert_eq!(address("http://localhost:3030"), Some(("localhost".to_string(), 3030)));
    assert_eq!(address("http://localhost:3000/sse"), Some(("localhost".to_string(), 3000)));
    assert_eq!(address("http://Example.COM"), Some(("example.com".to_string(), 3000)));
    // The scheme's own port counts as none.
    assert_eq!(address("http://localhost:80"), Some(("localhost".to_string(), 3000)));
    assert_eq!(address("mailto:someone"), Some(("127.0.0.1".to_string(), 3000)));
    assert_eq!(address("no url"), None);

    let transport = sse_transport(None, Some(1));
    assert_eq!((transport.host(), transport.port()), ("127.0.0.1", 1));
    let transport = sse_transport(Some("h".to_string()), None);
    assert_eq!((transport.host(), transport.port()), ("h", 3000));
}

#[test]
fn the_transport_of_a_client_by_its_name() {
    match client_transport("stdio", None) {
        Ok(ClientTransport::Stdio(transport)) => assert_eq!(transport.buffer_size(), 32),
        _ => panic!("Expected standard input and output"),
    }
    match client_transport("sse", None) {
        Err(McpError::InvalidRequest(reason)) => {
            assert_eq!(reason, "Server URL required for SSE transport")
        }
        _ => panic!("Expected InvalidRequest error"),
    }
    match try_client_transport("ws", Some("no url")) {
        Some(Err(McpError::InvalidRequest(reason))) => assert_eq!(reason, "Invalid transport type"),
        _ => panic!("Expected InvalidRequest error"),
    }
    assert!(matches!(
        try_client_transport("stdio", Some("no url")),
        Some(Ok(ClientTransport::Stdio(_)))
    ));
}

fn met() -> Client<()> {
    let mut client: Client<()> = Client::new();
    client.connect(Ok(())).unwrap();
    let value = json(
        r#"{
            "protocol_version": "2024-11-05",
            "capabilities": {
                "logging": {},
                "prompts": {"list_changed": true},
                "resources": {"subscribe": true, "list_changed": true},
                "tools": {"list_changed": true}
            },
            "server_info": {"name": "s", "version": "1"}
        }"#,
    );
    client.accept_initialize(&value).unwrap();
    client.confirm_initialized(true).unwrap();
    client
}

fn sent(client: &mut Client<()>, command: ClientCommand) -> String {
    match execute(client, command, ()).unwrap().command {
        TransportCommand::SendMessage(message) => message.encode().unwrap(),
        TransportCommand::Close => panic!("Expected a message"),
    }
}

#[test]
fn a_command_calls_for_a_request() {
    let mut client = met();
    let text = sent(&mut client, ClientCommand::ListResources { cursor: None });
    assert!(text.contains(r#""method":"resources/list","params":{"cursor":null}"#));
    let text = sent(&mut client, ClientCommand::ReadResource { uri: "file:///path/to/file".to_string() });
    assert!(text.contains(r#""method":"resources/read","params":{"uri":"file:///path/to/file"}"#));
    let text = sent(&mut client, ClientCommand::Subscribe { uri: "u".to_string() });
    assert!(text.contains(r#""method":"resources/subscribe","params":"u""#));
    let text = sent(&mut client, ClientCommand::ListPrompts { cursor: Some("c".to_string()) });
    assert!(text.contains(r#""method":"prompts/list","params":{"cursor":"c"}"#));
    let text = sent(
        &mut client,
        ClientCommand::GetPrompt {
            name: "code_review".to_string(),
            args: Some(r#"{"code": "fn main() {}", "language": "rust"}"#.to_string()),
        },
    );
    assert!(text.contains(
        r#""params":{"name":"code_review","arguments":{"code":"fn main() {}","language":"rust"}}"#
    ));
    let text = sent(&mut client, ClientCommand::GetPrompt { name: "p".to_string(), args: None });
    assert!(text.contains(r#""params":{"name":"p","arguments":null}"#));
    let text = sent(&mut client, ClientCommand::ListTools { cursor: None });
    assert!(text.contains(r#""method":"tools/list""#));
    let text = sent(
        &mut client,
        ClientCommand::CallTool {
            name: "calculator".to_string(),
            args: r#"{"expression": "2 + 2"}"#.to_string(),
        },
    );
    assert!(text.contains(
        r#""method":"tools/call","params":{"name":"calculator","arguments":{"expression":"2 + 2"}}"#
    ));
    let text = sent(&mut client, ClientCommand::SetLogLevel { level: "debug".to_string() });
    assert!(text.contains(r#""method":"logging/setLevel","params":{"level":"debug"}"#));
}

#[test]
fn arguments_are_json() {
    let mut client = met();
    assert_eq!(read_arguments("[1, 2]").unwrap().render().unwrap(), "[1,2]");
    for command in [
        ClientCommand::CallTool { name: "t".to_string(), args: "2 + 2".to_string() },
        ClientCommand::GetPrompt { name: "p".to_string(), args: Some("{".to_string()) },
    ] {
        match execute(&mut client, command, ()) {
            Err(McpError::InvalidRequest(reason)) => assert_eq!(reason, "Invalid JSON arguments"),
            _ => panic!("Expected InvalidRequest error"),
        }
    }
    assert_eq!(execute(&mut client, ClientCommand::ListTools { cursor: None }, ()).unwrap().id, 1);
}

#[test]
fn what_is_shown_of_a_response() {
    let shown = |command: ClientCommand, value: &str| {
        command.expected().show(json(value)).map(|shown| shown.map(|json| json.render().unwrap()))
    };
    let resources = || ClientCommand::ListResources { cursor: None };
    let value = shown(resources(), r#"{"resources": []}"#);
    assert_eq!(value.unwrap(), Some(r#"{"resources":[]}"#.to_string()));
    let prompts = || ClientCommand::ListPrompts { cursor: None };
    let value = shown(prompts(), r#"{"prompts": [], "x": 1}"#);
    assert_eq!(value.unwrap(), Some(r#"{"prompts":[],"x":1}"#.to_string()));
    assert!(shown(resources(), "[[],null]").is_ok());
    let resource = || ClientCommand::ReadResource { uri: "u".to_string() };
    let prompt = || ClientCommand::GetPrompt { name: "p".to_string(), args: None };
    assert_eq!(shown(resource(), "{}").unwrap(), Some("{}".to_string()));
    assert_eq!(shown(prompt(), "[1]").unwrap(), Some("[1]".to_string()));
    for value in ["null", "true", "1", r#""text""#] {
        for command in [resources(), prompts(), resource(), prompt()] {
            assert!(matches!(shown(command, value), Err(McpError::InvalidParams)));
        }
    }
    for value in ["{}", "[]", "[1]", r#"{"prompts":null}"#, r#"{"resources":{}}"#] {
        assert!(matches!(shown(resources(), value), Err(McpError::InvalidParams)));
        assert!(matches!(shown(prompts(), value), Err(McpError::InvalidParams)));
    }
    assert!(matches!(shown(prompts(), r#"{"resources":[]}"#), Err(McpError::InvalidParams)));
    let list = || ClientCommand::ListTools { cursor: None };
    let value = shown(list(), r#"{"tools": []}"#);
    assert_eq!(value.unwrap(), Some(r#"{"tools":[],"next_cursor":null}"#.to_string()));
    let value = shown(
        list(),
        r#"{"next_cursor":"c","tools":[{"name":"t","x":1,"input_schema":null,"description":"d"}]}"#,
    );
    assert_eq!(
        value.unwrap(),
        Some(
            r#"{"tools":[{"name":"t","description":"d","input_schema":null}],"next_cursor":"c"}"#
                .to_string()
        )
    );
    assert!(matches!(shown(list(), "true"), Err(McpError::InvalidParams)));
    assert!(matches!(shown(list(), r#"{"tools":[{}]}"#), Err(McpError::InvalidParams)));
    let subscribe = || ClientCommand::Subscribe { uri: "u".to_string() };
    assert_eq!(shown(subscribe(), "null").unwrap(), Some("null".to_string()));
    assert!(matches!(shown(subscribe(), "{}"), Err(McpError::InvalidParams)));
    let level = || ClientCommand::SetLogLevel { level: "info".to_string() };
    assert_eq!(shown(level(), "null").unwrap(), None);
    assert!(matches!(shown(level(), "1"), Err(McpError::InvalidParams)));
    let tool = || ClientCommand::CallTool { name: "t".to_string(), args: "{}".to_string() };
    let value = shown(tool(), r#"{"is_error":false,"content":[{"text":"4","type":"text"}],"x":1}"#);
    assert_eq!(
        value.unwrap(),
        Some(r#"{"content":[{"type":"text","text":"4"}],"is_error":false}"#.to_string())
    );
    assert!(matches!(shown(tool(), "{}"), Err(McpError::InvalidParams)));
    assert!(matches!(tool().expected(), Expected::ToolResult));
}

#[test]
fn the_client_of_the_command_line() {
    let info = client_info();
    assert_eq!(info.name, "mcp-cli");
    assert_eq!(info.version, "0.1.0");
}
