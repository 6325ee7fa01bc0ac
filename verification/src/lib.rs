//! A small request/response protocol between a client and a server: the wire
//! framing, the message model, the error taxonomy, the command dispatcher,
//! the storage pipeline and the per-connection state machine.

pub mod cli;
pub mod client_command;
pub mod client_error;
pub mod client_session;
pub mod codec;
pub mod command;
pub mod config;
pub mod file;
pub mod json;
pub mod message;
pub mod schema;
pub mod server_error;
pub mod stream_handler;
pub mod text;
pub mod util;
pub mod wire;
