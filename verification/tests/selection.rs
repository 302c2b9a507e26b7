use codex_login_mcp::auth::error::ErrorKind;
use codex_login_mcp::clients::{LegacyClient, McpClient, McpError, SdkClient};
use codex_login_mcp::mcp_impl::{
    impl_from_name, select_server_impl, set_client_impl_override, ClientImplOverride, McpImpl,
    McpImplArg,
};

#[test]
fn client_precedence_override_beats_env() {
    // Process override: legacy. Expect legacy to win regardless of env.
    let mut state = ClientImplOverride::new();
    set_client_impl_override(&mut state, "legacy");
    let which = state.selected_client_impl_for_tests(None);
    assert_eq!(which, "legacy");
    assert_eq!(state.selected_client_impl_for_tests(Some("official")), "legacy");
}

#[test]
fn first_client_override_stays() {
    let mut state = ClientImplOverride::new();
    assert_eq!(state.selected_client_impl_for_tests(None), "legacy");
    set_client_impl_override(&mut state, "OFFICIAL");
    set_client_impl_override(&mut state, "legacy");
    assert_eq!(state.selected_client_impl_for_tests(None), "official");
}

#[test]
fn unknown_client_override_is_ignored() {
    let mut state = ClientImplOverride::new();
    set_client_impl_override(&mut state, "bogus");
    assert_eq!(state.selected_client_impl_for_tests(None), "legacy");
    set_client_impl_override(&mut state, "official");
    assert_eq!(state.selected_client_impl_for_tests(None), "official");
}

#[test]
fn client_env_decides_without_override() {
    let state = ClientImplOverride::new();
    assert_eq!(state.selected_client_impl_for_tests(Some("official")), "official");
    assert_eq!(state.selected_client_impl_for_tests(Some("Official")), "official");
    assert_eq!(state.selected_client_impl_for_tests(Some("other")), "legacy");
    assert_eq!(state.selected_client_impl_for_tests(None), "legacy");
    let mut set = ClientImplOverride::new();
    set_client_impl_override(&mut set, "official");
    assert_eq!(set.selected_client_impl_for_tests(Some("legacy")), "official");
}

#[test]
fn impl_names() {
    assert_eq!(McpImpl::Legacy.as_str(), "legacy");
    assert_eq!(McpImpl::Official.as_str(), "official");
    assert_eq!(impl_from_name("Official"), McpImpl::Official);
    assert_eq!(impl_from_name("legacy"), McpImpl::Legacy);
    assert_eq!(impl_from_name("other"), McpImpl::Legacy);
}

#[test]
fn flag_then_env_then_legacy() {
    let flag = McpImplArg { mcp_impl: Some(McpImpl::Legacy) };
    assert_eq!(flag.selected_with_env(Some("official")), McpImpl::Legacy);
    let none = McpImplArg { mcp_impl: None };
    assert_eq!(none.selected_with_env(Some("OFFICIAL")), McpImpl::Official);
    assert_eq!(none.selected_with_env(Some("bogus")), McpImpl::Legacy);
    assert_eq!(none.selected_with_env(None), McpImpl::Legacy);
}

#[test]
fn server_impl_from_env_and_args() {
    let args = |v: &[&str]| v.iter().map(|s| s.to_string()).collect::<Vec<String>>();
    assert_eq!(select_server_impl(None, &args(&[])), McpImpl::Legacy);
    assert_eq!(select_server_impl(Some("official"), &args(&[])), McpImpl::Official);
    assert_eq!(select_server_impl(Some("legacy"), &args(&["--mcp-impl", "official"])), McpImpl::Official);
    assert_eq!(select_server_impl(Some("legacy"), &args(&["--mcp-impl=Official"])), McpImpl::Official);
    assert_eq!(select_server_impl(None, &args(&["--mcp-impl"])), McpImpl::Legacy);
    assert_eq!(select_server_impl(None, &args(&["official", "--mcp-impl"])), McpImpl::Legacy);
    assert_eq!(select_server_impl(Some("official"), &args(&["--mcp-impl", "legacy"])), McpImpl::Official);
}

#[test]
fn name_is_legacy() {
    let c = LegacyClient::new_placeholder();
    assert_eq!(c.as_name(), "legacy");
}

#[test]
fn name_is_sdk() {
    let c = SdkClient::new_placeholder();
    assert_eq!(c.as_name(), "sdk");
}

#[test]
fn placeholder_requests_are_unimplemented() {
    let c = LegacyClient::new_placeholder();
    assert_eq!(c.list_tools(None, Some(10)), Err(McpError::Anyhow("unimplemented".to_string())));
    let s = SdkClient::new_placeholder();
    assert_eq!(
        s.call_tool("codex".to_string(), None, None),
        Err(McpError::Anyhow("unimplemented".to_string()))
    );
    assert!(matches!(
        SdkClient::new_stdio_child("prog".to_string(), vec![], None),
        Err(McpError::Io { kind: ErrorKind::Other, message: m })
            if m == "sdk stdio transport not implemented"
    ));
}
