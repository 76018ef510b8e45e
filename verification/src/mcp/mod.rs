//! The MCP front end: the tool catalogue and its dispatch, the JSON-RPC
//! request decisions and the HTTP origin policy.
pub mod http_server;
pub mod server;
pub mod tools;
