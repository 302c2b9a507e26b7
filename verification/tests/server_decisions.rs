use std::collections::HashMap;

use codex_login_mcp::env::{base_env_keys, merge_env};
use codex_login_mcp::requests::{
    notification_is_sent, route_request, unsupported_method_message, RequestRoute,
};
use codex_login_mcp::server::{
    elicitation_meta_keys, elicitation_reply, initialize_reply, is_elicitation_meta_key, logger_for_notification,
    parse_conversation_id, review_decision, route_tool_call, runner_step, unknown_tool_message, ElicitationAction,
    ElicitationOutcome, ElicitationReply, HandlerFailure, ReviewDecision, RunnerAction,
    RunnerEvent, ToolRoute, MCP_SCHEMA_VERSION,
};

fn pairs(items: &[(&str, &str)]) -> Vec<(String, String)> {
    items
        .iter()
        .map(|(k, v)| (k.to_string(), v.to_string()))
        .collect()
}

#[test]
fn tool_calls_route_by_exact_name() {
    assert_eq!(route_tool_call("codex"), ToolRoute::Codex);
    assert_eq!(route_tool_call("codex-reply"), ToolRoute::CodexReply);
    assert_eq!(route_tool_call("codex_reply"), ToolRoute::Unknown);
    assert_eq!(route_tool_call("Codex"), ToolRoute::Unknown);
    assert_eq!(route_tool_call(""), ToolRoute::Unknown);
}

#[test]
fn failure_codes() {
    assert_eq!(HandlerFailure::InitializeSchema.code(), -32010);
    assert_eq!(HandlerFailure::ListSchema.code(), -32001);
    assert_eq!(HandlerFailure::ResultSerialization.code(), -32002);
    assert_eq!(HandlerFailure::ResultSchema.code(), -32003);
    assert_eq!(HandlerFailure::RequestIdSerialization.code(), -32004);
    assert_eq!(HandlerFailure::RequestIdConversion.code(), -32005);
    assert_eq!(HandlerFailure::InvalidParams.code(), -32602);
    assert_eq!(HandlerFailure::Config.code(), -32006);
    assert_eq!(HandlerFailure::RunnerClosed.code(), -32007);
    assert_eq!(HandlerFailure::ConversationNotFound.code(), -32008);
    assert_eq!(HandlerFailure::UnknownTool.code(), -32601);
    assert_eq!(HandlerFailure::ElicitationFailed.code(), -32603);
    assert_eq!(HandlerFailure::UnsupportedServerRequest.code(), -32601);
    assert_eq!(MCP_SCHEMA_VERSION, "2025-06-18");
}

#[test]
fn progress_updates_log_as_progress() {
    assert_eq!(logger_for_notification("progress/update"), "progress");
    assert_eq!(logger_for_notification("codex/event"), "codex/event");
    assert_eq!(logger_for_notification("progress"), "progress");
}

#[test]
fn only_accept_approves() {
    assert_eq!(review_decision(ElicitationAction::Accept), ReviewDecision::Approved);
    assert_eq!(review_decision(ElicitationAction::Decline), ReviewDecision::Denied);
    assert_eq!(review_decision(ElicitationAction::Cancel), ReviewDecision::Denied);
}

#[test]
fn elicitation_outcomes_become_replies() {
    assert_eq!(
        elicitation_reply(ElicitationOutcome::Answered(ElicitationAction::Accept)),
        ElicitationReply::Decision(ReviewDecision::Approved)
    );
    assert_eq!(
        elicitation_reply(ElicitationOutcome::Answered(ElicitationAction::Cancel)),
        ElicitationReply::Decision(ReviewDecision::Denied)
    );
    for outcome in [
        ElicitationOutcome::SendFailed,
        ElicitationOutcome::UnexpectedResult,
        ElicitationOutcome::ResponseFailed,
    ] {
        let reply = elicitation_reply(outcome);
        assert_eq!(reply, ElicitationReply::Error(HandlerFailure::ElicitationFailed));
        if let ElicitationReply::Error(f) = reply {
            assert_eq!(f.code(), -32603);
        }
    }
}

#[test]
fn meta_keys_exclude_message_and_schema() {
    assert!(!is_elicitation_meta_key("message"));
    assert!(!is_elicitation_meta_key("requestedSchema"));
    assert!(is_elicitation_meta_key("codex_command"));
    let keys: Vec<String> = ["message", "codex_call_id", "requestedSchema", "codex_cwd"]
        .iter()
        .map(|s| s.to_string())
        .collect();
    assert_eq!(
        elicitation_meta_keys(&keys),
        Some(vec!["codex_call_id".to_string(), "codex_cwd".to_string()])
    );
    let plain: Vec<String> = vec!["requestedSchema".to_string(), "message".to_string()];
    assert_eq!(elicitation_meta_keys(&plain), None);
    assert_eq!(elicitation_meta_keys(&Vec::new()), None);
}

#[test]
fn runner_events_drive_the_call() {
    assert!(matches!(
        runner_step(&RunnerEvent::Response { matches_request: true }),
        RunnerAction::Finish
    ));
    assert!(matches!(
        runner_step(&RunnerEvent::Response { matches_request: false }),
        RunnerAction::Wait
    ));
    assert!(matches!(
        runner_step(&RunnerEvent::ServerRequest {
            method: "elicitation/create".to_string()
        }),
        RunnerAction::ForwardElicitation
    ));
    assert!(matches!(
        runner_step(&RunnerEvent::ServerRequest {
            method: "sampling/createMessage".to_string()
        }),
        RunnerAction::RejectServerRequest
    ));
    match runner_step(&RunnerEvent::Notification {
        method: "progress/update".to_string(),
    }) {
        RunnerAction::Log { logger } => assert_eq!(logger, "progress"),
        other => panic!("unexpected action {other:?}"),
    }
    assert!(matches!(runner_step(&RunnerEvent::Error), RunnerAction::Wait));
    match runner_step(&RunnerEvent::Closed) {
        RunnerAction::Fail(f) => {
            assert_eq!(f, HandlerFailure::RunnerClosed);
            assert_eq!(f.code(), -32007);
        }
        other => panic!("unexpected action {other:?}"),
    }
}

#[test]
fn conversation_ids_parse_as_uuids() {
    assert_eq!(
        parse_conversation_id("67e55044-10b1-426f-9247-bb680e5fe0c8"),
        Ok(0x67e5504410b1426f9247bb680e5fe0c8u128)
    );
    assert_eq!(
        parse_conversation_id("not-a-uuid"),
        Err(HandlerFailure::InvalidParams)
    );
    assert_eq!(parse_conversation_id(""), Err(HandlerFailure::InvalidParams));
}

#[test]
fn requests_route_by_method() {
    assert_eq!(route_request("initialize"), RequestRoute::Initialize);
    assert_eq!(route_request("tools/list"), RequestRoute::ListTools);
    assert_eq!(route_request("tools/call"), RequestRoute::CallTool);
    assert_eq!(route_request("resources/list"), RequestRoute::Unsupported);
    assert_eq!(route_request("Tools/Call"), RequestRoute::Unsupported);
    assert!(notification_is_sent("notifications/initialized"));
    assert!(!notification_is_sent("notifications/cancelled"));
}

#[test]
fn baseline_env_keys_per_platform() {
    assert_eq!(
        base_env_keys(false),
        vec!["HOME", "LOGNAME", "PATH", "SHELL", "USER", "TMPDIR", "LANG", "LC_ALL", "TERM"]
    );
    assert_eq!(
        base_env_keys(true),
        vec![
            "PATH",
            "PATHEXT",
            "COMSPEC",
            "SYSTEMROOT",
            "WINDIR",
            "USERNAME",
            "USERDOMAIN",
            "USERPROFILE",
            "TEMP",
            "TMP"
        ]
    );
}

#[test]
fn configured_env_overrides_baseline() {
    let base = pairs(&[("PATH", "/usr/bin"), ("HOME", "/home/a")]);
    let extra = pairs(&[("PATH", "/opt/bin"), ("TOKEN", "x")]);
    let merged: HashMap<String, String> = merge_env(base.clone(), Some(extra)).into_iter().collect();
    let expected: HashMap<String, String> = pairs(&[
        ("PATH", "/opt/bin"),
        ("HOME", "/home/a"),
        ("TOKEN", "x"),
    ])
    .into_iter()
    .collect();
    assert_eq!(merged, expected);

    let only_base = merge_env(base, None);
    assert_eq!(only_base.len(), 2);
    let only_base: HashMap<String, String> = only_base.into_iter().collect();
    assert_eq!(only_base.get("PATH").map(String::as_str), Some("/usr/bin"));
}

#[test]
fn failure_messages_name_the_request() {
    assert_eq!(
        unsupported_method_message("resources/list"),
        "unsupported rmcp request method: resources/list"
    );
    assert_eq!(unknown_tool_message("shell"), "unknown tool: shell");
}

#[test]
fn initialize_reply_announces_the_server() {
    let reply = initialize_reply("1.2.3");
    assert_eq!(reply.protocol_version, "2025-06-18");
    assert!(reply.tools_list_changed);
    assert_eq!(reply.server_name, "codex-mcp-server");
    assert_eq!(reply.server_title, "Codex");
    assert_eq!(reply.server_version, "1.2.3");
}
