use mcp_rs::error::McpError;
use mcp_rs::json::Json;
use mcp_rs::server::config::ServerConfig;
use mcp_rs::server::McpServer;
use mcp_rs::tools::{
    finish_call, CallToolRequest, ListToolsRequest, ListToolsResponse, ResourceContent, Tool,
    ToolCapabilities, ToolContent, ToolManager, ToolResult,
};

struct MockCalculatorTool;

struct CalculatorParams {
    operation: String,
    a: f64,
    b: f64,
}

fn json(text: &str) -> Json {
    Json::parse(text).unwrap()
}

fn number(value: &Json) -> Option<f64> {
    match value {
        Json::PosInt(n) => Some(*n as f64),
        Json::NegInt(n) => Some(*n as f64),
        Json::Float(s) => s.parse().ok(),
        _ => None,
    }
}

fn calculator_params(arguments: &Json) -> Option<CalculatorParams> {
    Some(CalculatorParams {
        operation: arguments.get_str("operation")?.to_string(),
        a: number(arguments.get("a")?)?,
        b: number(arguments.get("b")?)?,
    })
}

impl MockCalculatorTool {
    fn get_tool(&self) -> Tool {
        Tool {
            name: "calculator".to_string(),
            description: "Performs basic arithmetic operations".to_string(),
            input_schema: json(
                r#"{
                    "type": "object",
                    "properties": {
                        "operation": {
                            "type": "string",
                            "enum": ["add", "subtract", "multiply", "divide"]
                        },
                        "a": { "type": "number" },
                        "b": { "type": "number" }
                    },
                    "required": ["operation", "a", "b"]
                }"#,
            ),
        }
    }

    fn execute(&self, arguments: Json) -> Result<ToolResult, McpError> {
        let params = calculator_params(&arguments).ok_or(McpError::InvalidParams)?;

        let result = match params.operation.as_str() {
            "add" => params.a + params.b,
            "subtract" => params.a - params.b,
            "multiply" => params.a * params.b,
            "divide" => {
                if params.b == 0.0 {
                    return Ok(ToolResult {
                        content: vec![ToolContent::Text { text: "Division by zero".to_string() }],
                        is_error: true,
                    });
                }
                params.a / params.b
            }
            _ => return Err(McpError::InvalidParams),
        };

        Ok(ToolResult {
            content: vec![ToolContent::Text { text: result.to_string() }],
            is_error: false,
        })
    }
}

fn register(manager: &mut ToolManager<MockCalculatorTool>) {
    let provider = MockCalculatorTool;
    let tool = provider.get_tool();
    manager.register_tool(&tool, provider);
}

fn list(manager: &ToolManager<MockCalculatorTool>) -> ListToolsResponse {
    let mut tools = Vec::new();
    for i in 0..manager.len() {
        tools.push(manager.provider_at(i).get_tool());
    }
    manager.list_tools(None, tools).unwrap()
}

fn call(
    manager: &ToolManager<MockCalculatorTool>,
    name: &str,
    arguments: Json,
) -> Result<ToolResult, McpError> {
    let call = manager.call_tool(name, arguments)?;
    Ok(finish_call(call.provider.execute(call.arguments)))
}

#[test]
fn test_tool_registration_and_listing() {
    let config = ServerConfig::default();
    let mut server: McpServer<MockCalculatorTool> = McpServer::new(config);

    register(&mut server.tool_manager);

    let response = list(&server.tool_manager);
    assert_eq!(response.tools.len(), 1);
    assert_eq!(response.tools[0].name, "calculator");
    assert!(response.next_cursor.is_none());
}

#[test]
fn test_tool_execution() {
    let config = ServerConfig::default();
    let mut server: McpServer<MockCalculatorTool> = McpServer::new(config);
    register(&mut server.tool_manager);

    let result = call(
        &server.tool_manager,
        "calculator",
        json(r#"{"operation": "add", "a": 5, "b": 3}"#),
    )
    .unwrap();
    match &result.content[0] {
        ToolContent::Text { text } => assert_eq!(text, "8"),
        _ => panic!("Expected text content"),
    }
    assert!(!result.is_error);

    let result = call(
        &server.tool_manager,
        "calculator",
        json(r#"{"operation": "divide", "a": 1, "b": 0}"#),
    )
    .unwrap();
    match &result.content[0] {
        ToolContent::Text { text } => assert_eq!(text, "Division by zero"),
        _ => panic!("Expected text content"),
    }
    assert!(result.is_error);
}

#[test]
fn test_invalid_tool() {
    let config = ServerConfig::default();
    let server: McpServer<MockCalculatorTool> = McpServer::new(config);

    let result = call(&server.tool_manager, "nonexistent", json("{}"));

    assert!(result.is_err());
    match result {
        Err(McpError::InvalidRequest(msg)) => {
            assert!(msg.contains("Unknown tool"));
            assert_eq!(msg, "Unknown tool: nonexistent");
        }
        _ => panic!("Expected InvalidRequest error"),
    }
}

#[test]
fn test_invalid_arguments() {
    let config = ServerConfig::default();
    let mut server: McpServer<MockCalculatorTool> = McpServer::new(config);
    register(&mut server.tool_manager);

    let result = call(
        &server.tool_manager,
        "calculator",
        json(r#"{"operation": "invalid", "a": 1, "b": 2}"#),
    )
    .unwrap();

    assert!(result.is_error);
    match &result.content[0] {
        ToolContent::Text { text } => assert_eq!(text, "Invalid params"),
        _ => panic!("Expected text content"),
    }
    assert_eq!(result.content.len(), 1);
}

#[test]
fn a_tool_that_is_registered_again_is_replaced() {
    let mut manager: ToolManager<u8> = ToolManager::new(ToolCapabilities { list_changed: false });
    let tool = MockCalculatorTool.get_tool();
    manager.register_tool(&tool, 1);
    let other = Tool { name: "other".to_string(), ..MockCalculatorTool.get_tool() };
    manager.register_tool(&other, 2);
    manager.register_tool(&tool, 3);
    assert_eq!(manager.len(), 2);
    assert_eq!(*manager.call_tool("calculator", Json::Null).unwrap().provider, 3);
    assert_eq!(*manager.call_tool("other", Json::Null).unwrap().provider, 2);
    assert!(manager.call_tool("calc", Json::Null).is_err());
    assert!(!manager.capabilities.list_changed);
    assert_eq!(*manager.provider_at(0), 3);
    assert_eq!(*manager.provider_at(1), 2);
}

#[test]
fn what_a_tool_says_as_json() {
    let tool = Tool {
        name: "t".to_string(),
        description: "d".to_string(),
        input_schema: json(r#"{"type":"object"}"#),
    };
    let list = ListToolsResponse { tools: vec![tool], next_cursor: None };
    assert_eq!(
        list.to_json().render().unwrap(),
        r#"{"tools":[{"name":"t","description":"d","input_schema":{"type":"object"}}],"next_cursor":null}"#
    );
}

#[test]
fn what_a_tool_gives_back_as_json() {
    let result = ToolResult {
        content: vec![
            ToolContent::Text { text: "8".to_string() },
            ToolContent::Image { data: "AA==".to_string(), mime_type: "image/png".to_string() },
            ToolContent::Resource {
                resource: ResourceContent {
                    uri: "file:///a".to_string(),
                    mime_type: None,
                    text: Some("x".to_string()),
                },
            },
        ],
        is_error: false,
    };
    let text = result.to_json().render().unwrap();
    assert_eq!(
        text,
        concat_lines(&[
            r#"{"content":[{"type":"text","text":"8"},"#,
            r#"{"type":"image","data":"AA==","mime_type":"image/png"},"#,
            r#"{"type":"resource","resource":{"uri":"file:///a","mime_type":null,"text":"x"}}],"#,
            r#""is_error":false}"#,
        ])
    );
    let again = ToolResult::from_json(&json(&text)).unwrap();
    assert_eq!(again.to_json().render().unwrap(), text);
}

fn concat_lines(lines: &[&str]) -> String {
    let mut all = String::new();
    for line in lines {
        all.push_str(line);
    }
    all
}

#[test]
fn what_a_tool_gave_back_is_read() {
    let read = |text: &str| ToolResult::from_json(&json(text));
    assert!(read(r#"{"content":[],"is_error":true}"#).unwrap().is_error);
    assert!(read(r#"{"is_error":true}"#).is_none());
    assert!(read(r#"{"content":[]}"#).is_none());
    assert!(read(r#"{"content":null,"is_error":true}"#).is_none());
    assert!(read(r#"{"content":[{"type":"video"}],"is_error":true}"#).is_none());
    assert!(read(r#"{"content":[{"text":"x"}],"is_error":true}"#).is_none());
    assert!(read(r#"{"content":[{"type":"image","data":"x"}],"is_error":true}"#).is_none());
    assert!(read(r#"{"content":[{"type":"resource","resource":7}],"is_error":true}"#).is_none());
    assert!(read(r#"{"content":["x"],"is_error":true}"#).is_none());
    assert!(read(r#"{"content":[[]],"is_error":true}"#).is_none());

    let result = read(r#"[[["text","hello"]],false]"#).unwrap();
    match &result.content[0] {
        ToolContent::Text { text } => assert_eq!(text, "hello"),
        _ => panic!("Expected text content"),
    }
    let result = read(
        r#"{"content":[{"extra":1,"resource":{"uri":"u"},"type":"resource"}],"is_error":false}"#,
    )
    .unwrap();
    match &result.content[0] {
        ToolContent::Resource { resource } => {
            assert_eq!(resource.uri, "u");
            assert!(resource.mime_type.is_none() && resource.text.is_none());
        }
        _ => panic!("Expected resource content"),
    }
}

#[test]
fn requests_about_tools_are_read_from_their_json() {
    let request = CallToolRequest { name: "t".to_string(), arguments: Json::Null };
    let read = CallToolRequest::from_json(&request.to_json()).unwrap();
    assert_eq!(read.name, "t");
    assert!(matches!(read.arguments, Json::Null));
    assert!(CallToolRequest::from_json(&json(r#"{"name":"t"}"#)).is_none());
    assert!(CallToolRequest::from_json(&json(r#"{"name":1,"arguments":{}}"#)).is_none());

    let request = ListToolsRequest { cursor: Some("c".to_string()) };
    let read = ListToolsRequest::from_json(&request.to_json()).unwrap();
    assert_eq!(read.cursor.as_deref(), Some("c"));
    assert!(ListToolsRequest::from_json(&json("{}")).unwrap().cursor.is_none());
    assert!(ListToolsRequest::from_json(&json(r#"{"cursor":1}"#)).is_none());
    assert!(ListToolsRequest::from_json(&json("7")).is_none());
}
