//! The settings of a server.
use vstd::prelude::*;

verus! {

/// The settings of a server.
#[derive(Debug)]
pub struct ServerConfig {
    pub server: ServerSettings,
    pub resources: ResourceSettings,
    pub security: SecuritySettings,
    pub logging: LoggingSettings,
    pub tools: ToolSettings,
}

/// Who the server is, and how it is reached.
#[derive(Debug)]
pub struct ServerSettings {
    pub name: String,
    pub version: String,
    pub transport: TransportType,
    pub host: String,
    pub port: u16,
    pub max_connections: usize,
    pub timeout_ms: u64,
}

/// Where resources are found, and which are given out.
#[derive(Debug)]
pub struct ResourceSettings {
    pub root_path: String,
    pub allowed_schemes: Vec<String>,
    pub max_file_size: usize,
    pub enable_templates: bool,
}

/// Who may use the server, and how much.
#[derive(Debug)]
pub struct SecuritySettings {
    pub enable_auth: bool,
    pub token_secret: Option<String>,
    pub rate_limit: RateLimitSettings,
    pub allowed_origins: Vec<String>,
}

/// How many requests are taken.
#[derive(Debug, Clone, Copy)]
pub struct RateLimitSettings {
    pub requests_per_minute: u32,
    pub burst_size: u32,
}

/// What is logged, where and how.
#[derive(Debug)]
pub struct LoggingSettings {
    pub level: String,
    pub file: Option<String>,
    pub format: LogFormat,
}

/// Which tools are run, and how.
#[derive(Debug)]
pub struct ToolSettings {
    pub enabled: bool,
    pub require_confirmation: bool,
    pub allowed_tools: Vec<String>,
    pub max_execution_time_ms: u64,
    pub rate_limit: RateLimitSettings,
}

/// How a server is reached.
#[derive(Debug, Clone, Copy, PartialEq, Eq, Structural)]
pub enum TransportType {
    Stdio,
    Sse,
    WebSocket,
}

/// How a log is written.
#[derive(Debug, Clone, Copy, PartialEq, Eq, Structural)]
pub enum LogFormat {
    Json,
    Pretty,
    Compact,
}

/// The list holds this one text.
pub open spec fn holds_only(list: Seq<String>, text: Seq<char>) -> bool {
    list.len() == 1 && list[0]@ == text
}

/// A list of one text.
fn only(text: &str) -> (list: Vec<String>)
    ensures
        holds_only(list@, text@),
{
    let mut list: Vec<String> = Vec::new();
    list.push(text.to_owned());
    list
}

/// The version of this library.
pub fn version() -> (version: String)
    ensures
        version@ == "0.1.0"@,
{
    "0.1.0".to_owned()
}

impl ServerSettings {
    /// The settings of a server that was told nothing.
    pub open spec fn is_default(self) -> bool {
        &&& self.name@ == "mcp-server"@
        &&& self.version@ == "0.1.0"@
        &&& self.transport == TransportType::Stdio
        &&& self.host@ == "127.0.0.1"@
        &&& self.port == 3000
        &&& self.max_connections == 100
        &&& self.timeout_ms == 30000
    }
}

impl ResourceSettings {
    /// The settings of a server that was told nothing: files under one directory, none over ten
    /// mebibytes.
    pub open spec fn is_default(self) -> bool {
        &&& self.root_path@ == "./resources"@
        &&& holds_only(self.allowed_schemes@, "file"@)
        &&& self.max_file_size == 10 * 1024 * 1024
        &&& self.enable_templates
    }
}

impl SecuritySettings {
    /// The settings of a server that was told nothing: open to all, sixty requests a minute.
    pub open spec fn is_default(self) -> bool {
        &&& !self.enable_auth
        &&& self.token_secret is None
        &&& self.rate_limit.requests_per_minute == 60
        &&& self.rate_limit.burst_size == 10
        &&& holds_only(self.allowed_origins@, "*"@)
    }
}

impl LoggingSettings {
    /// The settings of a server that was told nothing.
    pub open spec fn is_default(self) -> bool {
        &&& self.level@ == "info"@
        &&& self.file is None
        &&& self.format == LogFormat::Pretty
    }
}

impl ToolSettings {
    /// The settings of a server that was told nothing: all tools, half a minute each.
    pub open spec fn is_default(self) -> bool {
        &&& self.enabled
        &&& self.require_confirmation
        &&& holds_only(self.allowed_tools@, "*"@)
        &&& self.max_execution_time_ms == 30000
        &&& self.rate_limit.requests_per_minute == 30
        &&& self.rate_limit.burst_size == 5
    }
}

impl ServerConfig {
    /// The settings of a server that was told nothing.
    pub open spec fn is_default(self) -> bool {
        &&& self.server.is_default()
        &&& self.resources.is_default()
        &&& self.security.is_default()
        &&& self.logging.is_default()
        &&& self.tools.is_default()
    }
}

impl Default for ServerSettings {
    fn default() -> (settings: ServerSettings)
        ensures
            settings.is_default(),
    {
        ServerSettings {
            name: "mcp-server".to_owned(),
            version: version(),
            transport: TransportType::Stdio,
            host: "127.0.0.1".to_owned(),
            port: 3000,
            max_connections: 100,
            timeout_ms: 30000,
        }
    }
}

impl Default for ResourceSettings {
    fn default() -> (settings: ResourceSettings)
        ensures
            settings.is_default(),
    {
        ResourceSettings {
            root_path: "./resources".to_owned(),
            allowed_schemes: only("file"),
            max_file_size: 10 * 1024 * 1024,
            enable_templates: true,
        }
    }
}

impl Default for SecuritySettings {
    fn default() -> (settings: SecuritySettings)
        ensures
            settings.is_default(),
    {
        SecuritySettings {
            enable_auth: false,
            token_secret: None,
            rate_limit: RateLimitSettings { requests_per_minute: 60, burst_size: 10 },
            allowed_origins: only("*"),
        }
    }
}

impl Default for LoggingSettings {
    fn default() -> (settings: LoggingSettings)
        ensures
            settings.is_default(),
    {
        LoggingSettings { level: "info".to_owned(), file: None, format: LogFormat::Pretty }
    }
}

impl Default for ToolSettings {
    fn default() -> (settings: ToolSettings)
        ensures
            settings.is_default(),
    {
        ToolSettings {
            enabled: true,
            require_confirmation: true,
            allowed_tools: only("*"),
            max_execution_time_ms: 30000,
            rate_limit: RateLimitSettings { requests_per_minute: 30, burst_size: 5 },
        }
    }
}

impl Default for ServerConfig {
    fn default() -> (config: ServerConfig)
        ensures
            config.is_default(),
    {
        ServerConfig {
            server: ServerSettings::default(),
            resources: ResourceSettings::default(),
            security: SecuritySettings::default(),
            logging: LoggingSettings::default(),
            tools: ToolSettings::default(),
        }
    }
}

} // verus!
