//! The transports: what they are told, what they tell, and what each does with a message.
pub mod message;
pub mod session;
pub mod sse;
pub mod stdio;

pub use self::message::JsonRpcMessage;
use self::message::MessageView;
pub use self::sse::SseTransport;
pub use self::stdio::StdioTransport;
use crate::error::{McpError, McpErrorView};
use vstd::prelude::*;

verus! {

/// What a transport is told to do.
#[derive(Debug)]
pub enum TransportCommand {
    SendMessage(JsonRpcMessage),
    Close,
}

/// What a [`TransportCommand`] says.
pub enum CommandView {
    SendMessage(MessageView),
    Close,
}

impl View for TransportCommand {
    type V = CommandView;

    open spec fn view(&self) -> CommandView {
        match self {
            TransportCommand::SendMessage(message) => CommandView::SendMessage(message@),
            TransportCommand::Close => CommandView::Close,
        }
    }
}

/// What a transport tells.
#[derive(Debug)]
pub enum TransportEvent {
    Message(JsonRpcMessage),
    Error(McpError),
    Closed,
}

/// What a [`TransportEvent`] says.
pub enum EventView {
    Message(MessageView),
    Error(McpErrorView),
    Closed,
}

impl View for TransportEvent {
    type V = EventView;

    open spec fn view(&self) -> EventView {
        match self {
            TransportEvent::Message(message) => EventView::Message(message@),
            TransportEvent::Error(error) => EventView::Error(error@),
            TransportEvent::Closed => EventView::Closed,
        }
    }
}

/// What an optional event says.
pub open spec fn optional_event_view(event: Option<TransportEvent>) -> Option<EventView> {
    match event {
        Some(event) => Some(event@),
        None => None,
    }
}

} // verus!
