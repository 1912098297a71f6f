//! A minimal JSON-RPC dispatcher for the MCP method namespace.
//!
//! The crate turns the bytes of one request body into the one response that
//! the host has to send: it decodes the body, reads the request envelope,
//! dispatches on the method name and assembles the response envelope.

pub mod codec;
pub mod dispatch;
pub mod envelope;
pub mod handler;
pub mod http;
pub mod json;

pub use dispatch::{dispatch, handle_initialize, handle_tools_list};
pub use envelope::{Field, McpRequest, McpResponse, ParseError};
pub use handler::{mcp_handle, respond};
pub use http::{send_error_response, send_success_response, Header, OutgoingResponse};
pub use json::{Json, Member};
