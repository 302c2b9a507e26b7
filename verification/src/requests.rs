//! Which wire operation a client request or notification turns into.

use vstd::prelude::*;
use crate::text::{str_concat, str_eq};

verus! {

/// Method of the initialize request.
pub const INITIALIZE_METHOD: &'static str = "initialize";
/// Method of the tool listing request.
pub const LIST_TOOLS_METHOD: &'static str = "tools/list";
/// Method of the tool call request.
pub const CALL_TOOL_METHOD: &'static str = "tools/call";
/// Method of the notification that ends the handshake.
pub const INITIALIZED_NOTIFICATION_METHOD: &'static str = "notifications/initialized";

/// The operation a typed request is carried out by.
#[derive(Debug, Clone, Copy, PartialEq, Eq, Structural)]
pub enum RequestRoute {
    /// Answered from the peer information stored by the handshake.
    Initialize,
    /// Sent as a tool listing.
    ListTools,
    /// Sent as a tool call.
    CallTool,
    /// Refused: no operation carries this method.
    Unsupported,
}

pub open spec fn spec_request_route(method: Seq<char>) -> RequestRoute {
    if method == INITIALIZE_METHOD@ {
        RequestRoute::Initialize
    } else if method == LIST_TOOLS_METHOD@ {
        RequestRoute::ListTools
    } else if method == CALL_TOOL_METHOD@ {
        RequestRoute::CallTool
    } else {
        RequestRoute::Unsupported
    }
}

/// Picks the operation for a request method.
pub fn route_request(method: &str) -> (r: RequestRoute)
    ensures
        r == spec_request_route(method@),
{
    if str_eq(method, INITIALIZE_METHOD) {
        RequestRoute::Initialize
    } else if str_eq(method, LIST_TOOLS_METHOD) {
        RequestRoute::ListTools
    } else if str_eq(method, CALL_TOOL_METHOD) {
        RequestRoute::CallTool
    } else {
        RequestRoute::Unsupported
    }
}

/// The error of a request whose method no operation carries.
pub fn unsupported_method_message(method: &str) -> (m: String)
    ensures
        m@ == "unsupported rmcp request method: "@ + method@,
{
    str_concat("unsupported rmcp request method: ", method)
}

/// Only the initialized notification reaches the peer; any other
/// notification is accepted and dropped.
pub fn notification_is_sent(method: &str) -> (r: bool)
    ensures
        r == (method@ == INITIALIZED_NOTIFICATION_METHOD@),
{
    str_eq(method, INITIALIZED_NOTIFICATION_METHOD)
}

} // verus!
