//! The errors of the protocol, and how an error is told to the other side.
use vstd::prelude::*;
use vstd::string::*;

verus! {

/// What can go wrong in the protocol.
#[derive(Debug)]
pub enum McpError {
    ParseError,
    InvalidRequest(String),
    InvalidParams,
    InternalError,
    NotConnected,
    ConnectionClosed,
    RequestTimeout,
    CapabilityNotSupported(String),
    Custom { code: i32, message: String },
}

/// What a [`McpError`] says.
pub enum McpErrorView {
    ParseError,
    InvalidRequest(Seq<char>),
    InvalidParams,
    InternalError,
    NotConnected,
    ConnectionClosed,
    RequestTimeout,
    CapabilityNotSupported(Seq<char>),
    Custom { code: i32, message: Seq<char> },
}

impl View for McpError {
    type V = McpErrorView;

    open spec fn view(&self) -> McpErrorView {
        match self {
            McpError::ParseError => McpErrorView::ParseError,
            McpError::InvalidRequest(reason) => McpErrorView::InvalidRequest(reason@),
            McpError::InvalidParams => McpErrorView::InvalidParams,
            McpError::InternalError => McpErrorView::InternalError,
            McpError::NotConnected => McpErrorView::NotConnected,
            McpError::ConnectionClosed => McpErrorView::ConnectionClosed,
            McpError::RequestTimeout => McpErrorView::RequestTimeout,
            McpError::CapabilityNotSupported(name) => McpErrorView::CapabilityNotSupported(name@),
            McpError::Custom { code, message } => McpErrorView::Custom {
                code: *code,
                message: message@,
            },
        }
    }
}

impl McpErrorView {
    /// The JSON-RPC code of the error. What JSON-RPC gives no code of its own is a server error.
    pub open spec fn code(self) -> int {
        match self {
            McpErrorView::ParseError => -32700,
            McpErrorView::InvalidRequest(_) => -32600,
            McpErrorView::InvalidParams => -32602,
            McpErrorView::InternalError => -32603,
            McpErrorView::Custom { code, .. } => code as int,
            _ => -32000,
        }
    }

    /// The error in words.
    pub open spec fn message(self) -> Seq<char> {
        match self {
            McpErrorView::ParseError => "Parse error"@,
            McpErrorView::InvalidRequest(reason) => "Invalid request: "@ + reason,
            McpErrorView::InvalidParams => "Invalid params"@,
            McpErrorView::InternalError => "Internal error"@,
            McpErrorView::NotConnected => "Not connected"@,
            McpErrorView::ConnectionClosed => "Connection closed"@,
            McpErrorView::RequestTimeout => "Request timeout"@,
            McpErrorView::CapabilityNotSupported(name) => "Capability not supported: "@ + name,
            McpErrorView::Custom { message, .. } => message,
        }
    }
}

impl McpError {
    /// The JSON-RPC code of the error.
    pub fn code(&self) -> (code: i32)
        ensures
            code == self@.code(),
    {
        match self {
            McpError::ParseError => -32700,
            McpError::InvalidRequest(_) => -32600,
            McpError::InvalidParams => -32602,
            McpError::InternalError => -32603,
            McpError::Custom { code, .. } => *code,
            _ => -32000,
        }
    }

    /// The error in words.
    pub fn message(&self) -> (text: String)
        ensures
            text@ == self@.message(),
    {
        match self {
            McpError::ParseError => "Parse error".to_owned(),
            McpError::InvalidRequest(reason) => "Invalid request: ".to_owned().concat(
                reason.as_str(),
            ),
            McpError::InvalidParams => "Invalid params".to_owned(),
            McpError::InternalError => "Internal error".to_owned(),
            McpError::NotConnected => "Not connected".to_owned(),
            McpError::ConnectionClosed => "Connection closed".to_owned(),
            McpError::RequestTimeout => "Request timeout".to_owned(),
            McpError::CapabilityNotSupported(name) => "Capability not supported: ".to_owned(
            ).concat(name.as_str()),
            McpError::Custom { message, .. } => message.clone(),
        }
    }
}

/// What the result of an operation without a value says.
pub open spec fn outcome_view(outcome: Result<(), McpError>) -> Result<(), McpErrorView> {
    match outcome {
        Ok(()) => Ok(()),
        Err(error) => Err(error@),
    }
}

} // verus!
