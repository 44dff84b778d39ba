//! What holds of the library as a whole, said of what goes in and what comes out.
pub mod cli;
pub mod client;
pub mod messages;
pub mod protocol;
pub mod server;
pub mod text;
pub mod tools;
pub mod transports;
pub mod values;
