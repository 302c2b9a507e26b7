//! The client adapters behind the MCP client interface. Both are shells
//! that answer every request with an "unimplemented" error.

use vstd::prelude::*;
use crate::auth::error::ErrorKind;

verus! {

/// Minimal error type used by adapters: an I/O error (its kind and
/// message) or any other error (its message).
#[derive(Debug, PartialEq, Eq)]
pub enum McpError {
    Io { kind: ErrorKind, message: String },
    Anyhow(String),
}

/// Whether `e` is the error every placeholder request answers with.
pub open spec fn spec_is_unimplemented(e: McpError) -> bool {
    e matches McpError::Anyhow(m) && m@ == "unimplemented"@
}

fn unimplemented() -> (e: McpError)
    ensures
        spec_is_unimplemented(e),
{
    McpError::Anyhow("unimplemented".to_owned())
}

/// Client trait used by core without binding to SDK types. Requests and
/// results are carried as JSON text; timeouts in milliseconds.
pub trait McpClient {
    fn as_name(&self) -> &'static str;

    fn initialize(&self, params: &str, notification_params: Option<&str>, timeout_ms: Option<u64>) -> Result<String, McpError>;

    fn list_tools(&self, params: Option<&str>, timeout_ms: Option<u64>) -> Result<String, McpError>;

    fn call_tool(&self, name: String, args: Option<&str>, timeout_ms: Option<u64>) -> Result<String, McpError>;

    fn send_request(&self, method: &str, params: &str, timeout_ms: Option<u64>) -> Result<String, McpError>;

    fn send_notification(&self, method: &str, params: &str) -> Result<(), McpError>;
}

/// Marker for future server-side adapter abstraction.
pub trait McpServer {
    fn as_name(&self) -> &'static str;
}

/// Placeholder legacy client wrapper.
pub struct LegacyClient;

impl LegacyClient {
    pub fn new_placeholder() -> (c: Self)
    {
        LegacyClient
    }
}

impl McpClient for LegacyClient {
    fn as_name(&self) -> (n: &'static str)
        ensures
            n@ == "legacy"@,
    {
        "legacy"
    }

    fn initialize(&self, params: &str, notification_params: Option<&str>, timeout_ms: Option<u64>) -> (r: Result<String, McpError>)
        ensures
            r matches Err(e) && spec_is_unimplemented(e),
    {
        Err(unimplemented())
    }

    fn list_tools(&self, params: Option<&str>, timeout_ms: Option<u64>) -> (r: Result<String, McpError>)
        ensures
            r matches Err(e) && spec_is_unimplemented(e),
    {
        Err(unimplemented())
    }

    fn call_tool(&self, name: String, args: Option<&str>, timeout_ms: Option<u64>) -> (r: Result<String, McpError>)
        ensures
            r matches Err(e) && spec_is_unimplemented(e),
    {
        Err(unimplemented())
    }

    fn send_request(&self, method: &str, params: &str, timeout_ms: Option<u64>) -> (r: Result<String, McpError>)
        ensures
            r matches Err(e) && spec_is_unimplemented(e),
    {
        Err(unimplemented())
    }

    fn send_notification(&self, method: &str, params: &str) -> (r: Result<(), McpError>)
        ensures
            r matches Err(e) && spec_is_unimplemented(e),
    {
        Err(unimplemented())
    }
}

/// Placeholder sdk client wrapper.
pub struct SdkClient;

impl SdkClient {
    pub fn new_placeholder() -> (c: Self)
    {
        SdkClient
    }
}

impl McpClient for SdkClient {
    fn as_name(&self) -> (n: &'static str)
        ensures
            n@ == "sdk"@,
    {
        "sdk"
    }

    fn initialize(&self, params: &str, notification_params: Option<&str>, timeout_ms: Option<u64>) -> (r: Result<String, McpError>)
        ensures
            r matches Err(e) && spec_is_unimplemented(e),
    {
        Err(unimplemented())
    }

    fn list_tools(&self, params: Option<&str>, timeout_ms: Option<u64>) -> (r: Result<String, McpError>)
        ensures
            r matches Err(e) && spec_is_unimplemented(e),
    {
        Err(unimplemented())
    }

    fn call_tool(&self, name: String, args: Option<&str>, timeout_ms: Option<u64>) -> (r: Result<String, McpError>)
        ensures
            r matches Err(e) && spec_is_unimplemented(e),
    {
        Err(unimplemented())
    }

    fn send_request(&self, method: &str, params: &str, timeout_ms: Option<u64>) -> (r: Result<String, McpError>)
        ensures
            r matches Err(e) && spec_is_unimplemented(e),
    {
        Err(unimplemented())
    }

    fn send_notification(&self, method: &str, params: &str) -> (r: Result<(), McpError>)
        ensures
            r matches Err(e) && spec_is_unimplemented(e),
    {
        Err(unimplemented())
    }
}

impl SdkClient {
    /// The stdio transport of the SDK adapter is not wired: always an I/O
    /// error.
    pub fn new_stdio_child(program: String, args: Vec<String>, env: Option<Vec<(String, String)>>) -> (r: Result<SdkClient, McpError>)
        ensures
            r matches Err(McpError::Io { kind, message }) && kind == ErrorKind::Other
                && message@ == "sdk stdio transport not implemented"@,
    {
        Err(McpError::Io { kind: ErrorKind::Other, message: "sdk stdio transport not implemented".to_owned() })
    }
}

} // verus!
