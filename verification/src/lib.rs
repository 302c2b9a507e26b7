//! Verified core of the Codex login storage and MCP selection logic.

pub mod assoc;
pub mod auth;
pub mod clients;
pub mod digest;
pub mod env;
pub mod mcp_impl;
pub mod requests;
pub mod sanitize;
pub mod server;
pub mod text;
pub mod tool_names;
