//! Decisions of the server's request handler: which tool a call runs, how
//! failures are numbered, how runner notifications are logged, and how an
//! elicitation answer becomes a review decision.

use vstd::prelude::*;
use crate::text::{str_concat, str_eq};

verus! {

/// Protocol version announced at initialization.
pub const MCP_SCHEMA_VERSION: &'static str = "2025-06-18";
/// Server name announced at initialization.
pub const SERVER_NAME: &'static str = "codex-mcp-server";
/// Server title announced at initialization.
pub const SERVER_TITLE: &'static str = "Codex";

/// The reply to an initialize request.
pub struct InitializeReply {
    /// The protocol version the server speaks.
    pub protocol_version: String,
    /// Whether the server announces changes of its tool list.
    pub tools_list_changed: bool,
    pub server_name: String,
    pub server_title: String,
    /// The version of the server build.
    pub server_version: String,
}

/// The initialize reply of a server build with the given version: the
/// supported protocol version, tool-list change notifications, and the
/// server's name and title.
pub fn initialize_reply(version: &str) -> (r: InitializeReply)
    ensures
        r.protocol_version@ == MCP_SCHEMA_VERSION@,
        r.tools_list_changed,
        r.server_name@ == SERVER_NAME@,
        r.server_title@ == SERVER_TITLE@,
        r.server_version@ == version@,
{
    InitializeReply {
        protocol_version: MCP_SCHEMA_VERSION.to_owned(),
        tools_list_changed: true,
        server_name: SERVER_NAME.to_owned(),
        server_title: SERVER_TITLE.to_owned(),
        server_version: version.to_owned(),
    }
}

/// The tool a `tools/call` request runs.
#[derive(Debug, Clone, Copy, PartialEq, Eq, Structural)]
pub enum ToolRoute {
    /// Start a Codex session.
    Codex,
    /// Continue a Codex session.
    CodexReply,
    /// No such tool.
    Unknown,
}

pub open spec fn spec_route(name: Seq<char>) -> ToolRoute {
    if name == "codex"@ {
        ToolRoute::Codex
    } else if name == "codex-reply"@ {
        ToolRoute::CodexReply
    } else {
        ToolRoute::Unknown
    }
}

pub fn route_tool_call(name: &str) -> (r: ToolRoute)
    ensures
        r == spec_route(name@),
{
    if str_eq(name, "codex") {
        ToolRoute::Codex
    } else if str_eq(name, "codex-reply") {
        ToolRoute::CodexReply
    } else {
        ToolRoute::Unknown
    }
}

/// The message of a call to a tool the server does not have.
pub fn unknown_tool_message(name: &str) -> (m: String)
    ensures
        m@ == "unknown tool: "@ + name@,
{
    str_concat("unknown tool: ", name)
}

/// Why the handler fails a request.
#[derive(Debug, Clone, Copy, PartialEq, Eq, Structural)]
pub enum HandlerFailure {
    InitializeSchema,
    ListSchema,
    ResultSerialization,
    ResultSchema,
    RequestIdSerialization,
    RequestIdConversion,
    InvalidParams,
    Config,
    RunnerClosed,
    ConversationNotFound,
    UnknownTool,
    ElicitationFailed,
    UnsupportedServerRequest,
}

pub open spec fn spec_failure_code(f: HandlerFailure) -> int {
    match f {
        HandlerFailure::InitializeSchema => -32010,
        HandlerFailure::ListSchema => -32001,
        HandlerFailure::ResultSerialization => -32002,
        HandlerFailure::ResultSchema => -32003,
        HandlerFailure::RequestIdSerialization => -32004,
        HandlerFailure::RequestIdConversion => -32005,
        HandlerFailure::InvalidParams => -32602,
        HandlerFailure::Config => -32006,
        HandlerFailure::RunnerClosed => -32007,
        HandlerFailure::ConversationNotFound => -32008,
        HandlerFailure::UnknownTool => -32601,
        HandlerFailure::ElicitationFailed => -32603,
        HandlerFailure::UnsupportedServerRequest => -32601,
    }
}

impl HandlerFailure {
    /// The JSON-RPC error code the failure is answered with.
    pub fn code(&self) -> (c: i32)
        ensures
            c == spec_failure_code(*self),
    {
        match self {
            HandlerFailure::InitializeSchema => -32010,
            HandlerFailure::ListSchema => -32001,
            HandlerFailure::ResultSerialization => -32002,
            HandlerFailure::ResultSchema => -32003,
            HandlerFailure::RequestIdSerialization => -32004,
            HandlerFailure::RequestIdConversion => -32005,
            HandlerFailure::InvalidParams => -32602,
            HandlerFailure::Config => -32006,
            HandlerFailure::RunnerClosed => -32007,
            HandlerFailure::ConversationNotFound => -32008,
            HandlerFailure::UnknownTool => -32601,
            HandlerFailure::ElicitationFailed => -32603,
            HandlerFailure::UnsupportedServerRequest => -32601,
        }
    }
}

/// The logger a runner notification is forwarded under: `progress` for
/// `progress/update`, the method itself otherwise.
pub open spec fn spec_logger_for(method: Seq<char>) -> Seq<char> {
    if method == "progress/update"@ {
        "progress"@
    } else {
        method
    }
}

pub fn logger_for_notification(method: &str) -> (logger: String)
    ensures
        logger@ == spec_logger_for(method@),
{
    if str_eq(method, "progress/update") {
        "progress".to_owned()
    } else {
        method.to_owned()
    }
}

/// How a client answered an elicitation.
#[derive(Debug, Clone, Copy, PartialEq, Eq, Structural)]
pub enum ElicitationAction {
    Accept,
    Decline,
    Cancel,
}

/// The review decision handed back to the runner.
#[derive(Debug, Clone, Copy, PartialEq, Eq, Structural)]
pub enum ReviewDecision {
    Approved,
    Denied,
}

/// Only an accepted elicitation approves; declining or cancelling denies.
pub fn review_decision(action: ElicitationAction) -> (d: ReviewDecision)
    ensures
        d == (if action == ElicitationAction::Accept {
            ReviewDecision::Approved
        } else {
            ReviewDecision::Denied
        }),
{
    match action {
        ElicitationAction::Accept => ReviewDecision::Approved,
        ElicitationAction::Decline | ElicitationAction::Cancel => ReviewDecision::Denied,
    }
}

/// Whether an elicitation parameter travels in `_meta`: every key but
/// `message` and `requestedSchema`.
pub fn is_elicitation_meta_key(key: &str) -> (r: bool)
    ensures
        r == (key@ != "message"@ && key@ != "requestedSchema"@),
{
    !str_eq(key, "message") && !str_eq(key, "requestedSchema")
}

/// Method of the server-initiated request that asks the client a question.
pub const ELICIT_METHOD: &'static str = "elicitation/create";

/// What the runner of a tool call hands the handler, reduced to what the
/// handler decides on.
pub enum RunnerEvent {
    /// A response; `matches_request` tells whether it answers this call.
    Response { matches_request: bool },
    /// A request the server sends the client.
    ServerRequest { method: String },
    /// A notification for the client.
    Notification { method: String },
    /// An error message.
    Error,
    /// The runner's channel closed.
    Closed,
}

/// What the handler does with a runner event.
#[derive(Debug)]
pub enum RunnerAction {
    /// The call is answered with this response.
    Finish,
    /// Nothing to do; wait for the next event.
    Wait,
    /// Forward the request to the client as an elicitation.
    ForwardElicitation,
    /// Answer the runner with an unsupported-method error.
    RejectServerRequest,
    /// Forward the notification as a log message under this logger.
    Log { logger: String },
    /// The call fails.
    Fail(HandlerFailure),
}

/// One step of the handler's loop over runner events.
pub fn runner_step(event: &RunnerEvent) -> (r: RunnerAction)
    ensures
        match event {
            RunnerEvent::Response { matches_request } => r == (if *matches_request {
                RunnerAction::Finish
            } else {
                RunnerAction::Wait
            }),
            RunnerEvent::ServerRequest { method } => r == (if method@ == ELICIT_METHOD@ {
                RunnerAction::ForwardElicitation
            } else {
                RunnerAction::RejectServerRequest
            }),
            RunnerEvent::Notification { method } => (r matches RunnerAction::Log { logger }
                && logger@ == spec_logger_for(method@)),
            RunnerEvent::Error => r == RunnerAction::Wait,
            RunnerEvent::Closed => r == RunnerAction::Fail(HandlerFailure::RunnerClosed),
        },
{
    match event {
        RunnerEvent::Response { matches_request } => {
            if *matches_request {
                RunnerAction::Finish
            } else {
                RunnerAction::Wait
            }
        },
        RunnerEvent::ServerRequest { method } => {
            if str_eq(method.as_str(), ELICIT_METHOD) {
                RunnerAction::ForwardElicitation
            } else {
                RunnerAction::RejectServerRequest
            }
        },
        RunnerEvent::Notification { method } => RunnerAction::Log {
            logger: logger_for_notification(method.as_str()),
        },
        RunnerEvent::Error => RunnerAction::Wait,
        RunnerEvent::Closed => RunnerAction::Fail(HandlerFailure::RunnerClosed),
    }
}

/// How forwarding an elicitation to the client ended.
#[derive(Debug, Clone, Copy, PartialEq, Eq, Structural)]
pub enum ElicitationOutcome {
    /// The request could not be sent.
    SendFailed,
    /// The client answered with an elicitation result.
    Answered(ElicitationAction),
    /// The client answered with a result of another kind.
    UnexpectedResult,
    /// Waiting for the answer failed.
    ResponseFailed,
}

/// What the runner is told about a forwarded elicitation.
#[derive(Debug, Clone, Copy, PartialEq, Eq, Structural)]
pub enum ElicitationReply {
    /// The review decision taken from the client's answer.
    Decision(ReviewDecision),
    /// An error with this failure's code.
    Error(HandlerFailure),
}

/// An answer becomes a review decision; every other outcome is an
/// elicitation failure.
pub fn elicitation_reply(outcome: ElicitationOutcome) -> (r: ElicitationReply)
    ensures
        r == (match outcome {
            ElicitationOutcome::Answered(a) => ElicitationReply::Decision(
                if a == ElicitationAction::Accept {
                    ReviewDecision::Approved
                } else {
                    ReviewDecision::Denied
                },
            ),
            _ => ElicitationReply::Error(HandlerFailure::ElicitationFailed),
        }),
{
    match outcome {
        ElicitationOutcome::Answered(a) => ElicitationReply::Decision(review_decision(a)),
        _ => ElicitationReply::Error(HandlerFailure::ElicitationFailed),
    }
}

/// The parameter keys that travel in `_meta`, in their order.
pub open spec fn spec_meta_keys(keys: Seq<String>) -> Seq<String> {
    keys.filter(|k: String| k@ != "message"@ && k@ != "requestedSchema"@)
}

/// The keys of an elicitation's parameters that go into `_meta`; `None`
/// when there are none, so that no empty `_meta` is sent.
pub fn elicitation_meta_keys(keys: &Vec<String>) -> (r: Option<Vec<String>>)
    ensures
        match r {
            Some(v) => v@ == spec_meta_keys(keys@) && v@.len() > 0,
            None => spec_meta_keys(keys@).len() == 0,
        },
{
    let mut out: Vec<String> = Vec::new();
    let n = keys.len();
    for i in 0..n
        invariant
            n == keys@.len(),
            out@ == spec_meta_keys(keys@.take(i as int)),
    {
        proof {
            assert(keys@.take(i as int + 1) =~= keys@.take(i as int).push(keys@[i as int]));
            keys@.take(i as int).lemma_filter_push(
                keys@[i as int],
                |k: String| k@ != "message"@ && k@ != "requestedSchema"@,
            );
        }
        if is_elicitation_meta_key(keys[i].as_str()) {
            out.push(keys[i].clone());
        }
    }
    proof {
        assert(keys@.take(n as int) =~= keys@);
    }
    if out.len() == 0 {
        None
    } else {
        Some(out)
    }
}

/// What `uuid::Uuid::parse_str` gives for a string: the UUID as a 128-bit
/// number, or `None` when the string is refused.
pub uninterp spec fn uuid_parse(s: Seq<char>) -> Option<u128>;

/// Calls `uuid::Uuid::parse_str`. The contract claims only that the result
/// is the crate's parse of the argument (named `uuid_parse`): which strings
/// it accepts is not stated.
#[verifier::external_body]
fn parse_uuid(s: &str) -> (r: Option<u128>)
    ensures
        r == uuid_parse(s@),
{
    match uuid::Uuid::parse_str(s) {
        Ok(u) => Some(u.as_u128()),
        Err(_) => None,
    }
}

/// The conversation id of a `codex-reply` call, given the parse of its
/// parameter: a refused parameter is invalid params.
pub fn conversation_id_from_parsed(parsed: Option<u128>) -> (r: Result<u128, HandlerFailure>)
    ensures
        r == (match parsed {
            Some(v) => Ok::<u128, HandlerFailure>(v),
            None => Err(HandlerFailure::InvalidParams),
        }),
{
    match parsed {
        Some(v) => Ok(v),
        None => Err(HandlerFailure::InvalidParams),
    }
}

/// Parses the conversation id of a `codex-reply` call.
pub fn parse_conversation_id(param: &str) -> (r: Result<u128, HandlerFailure>)
    ensures
        r == (match uuid_parse(param@) {
            Some(v) => Ok::<u128, HandlerFailure>(v),
            None => Err(HandlerFailure::InvalidParams),
        }),
{
    conversation_id_from_parsed(parse_uuid(param))
}

} // verus!
