//! The Model Context Protocol: messages, transports, the protocol between two sides, and the
//! client and the server that speak it.
pub mod capability;
pub mod cli;
pub mod client;
pub mod error;
pub mod json;
pub mod laws;
pub mod logging;
pub mod parts;
pub mod prompts;
pub mod protocol;
pub mod protocol_old;
pub mod registry;
pub mod resource;
pub mod server;
pub mod text;
pub mod tools;
pub mod transport;
