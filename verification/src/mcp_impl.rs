//! Runtime selection of the MCP implementation (server and client roles).

use vstd::prelude::*;
use crate::text::{
    chars_of, eq_ignore_ascii_case, eq_ignore_ascii_case_chars, spec_eq_ignore_ascii_case,
    spec_strip_prefix, str_eq, strip_prefix,
};

verus! {

/// Runtime-selectable MCP implementation.
#[derive(Debug, Clone, Copy, PartialEq, Eq, Structural)]
pub enum McpImpl {
    Legacy,
    Official,
}

/// The name of an implementation.
pub open spec fn spec_impl_name(i: McpImpl) -> Seq<char> {
    match i {
        McpImpl::Legacy => "legacy"@,
        McpImpl::Official => "official"@,
    }
}

impl McpImpl {
    pub fn as_str(&self) -> (s: &'static str)
        ensures
            s@ == spec_impl_name(*self),
    {
        match self {
            McpImpl::Legacy => "legacy",
            McpImpl::Official => "official",
        }
    }
}

/// The implementation a configured name selects: `official` in any ASCII
/// case selects the official implementation, anything else the legacy one.
pub open spec fn spec_impl_from_name(val: Seq<char>) -> McpImpl {
    if spec_eq_ignore_ascii_case(val, "official"@) {
        McpImpl::Official
    } else {
        McpImpl::Legacy
    }
}

/// Parses an implementation name as the `CODEX_MCP_IMPL` variable holds it.
pub fn impl_from_name(val: &str) -> (r: McpImpl)
    ensures
        r == spec_impl_from_name(val@),
{
    if eq_ignore_ascii_case(val, "official") {
        McpImpl::Official
    } else {
        McpImpl::Legacy
    }
}

/// CLI argument container for selecting the MCP implementation.
#[derive(Debug, Clone, Copy, PartialEq, Eq, Structural)]
pub struct McpImplArg {
    /// Select MCP implementation (overridable by CODEX_MCP_IMPL)
    pub mcp_impl: Option<McpImpl>,
}

/// The implementation selected by an optional flag and an optional value of
/// the `CODEX_MCP_IMPL` variable: the flag wins, then the variable, then
/// the legacy implementation.
pub open spec fn spec_selected(flag: Option<McpImpl>, env_value: Option<Seq<char>>) -> McpImpl {
    match flag {
        Some(v) => v,
        None => match env_value {
            Some(val) => spec_impl_from_name(val),
            None => McpImpl::Legacy,
        },
    }
}

impl McpImplArg {
    /// Resolve the selected implementation from the flag and the value of
    /// `CODEX_MCP_IMPL` (`None` when unset), defaulting to Legacy.
    pub fn selected_with_env(&self, env_value: Option<&str>) -> (r: McpImpl)
        ensures
            r == spec_selected(
                self.mcp_impl,
                match env_value {
                    Some(v) => Some(v@),
                    None => None,
                },
            ),
    {
        if let Some(v) = self.mcp_impl {
            return v;
        }
        match env_value {
            Some(val) => impl_from_name(val),
            None => McpImpl::Legacy,
        }
    }
}

/// Whether the server's command line asks for the official implementation:
/// `--mcp-impl` followed by `official`, or `--mcp-impl=official` (the value
/// in any ASCII case).
pub open spec fn spec_args_request_official(args: Seq<Seq<char>>) -> bool {
    ||| exists|i: int| 0 <= i < args.len() - 1 && #[trigger] spec_pair_official(args, i)
    ||| exists|i: int| 0 <= i < args.len() && #[trigger] spec_inline_flag_official(args[i])
}

/// Whether `args[i]` is `--mcp-impl` and `args[i + 1]` is `official` (in
/// any ASCII case).
pub open spec fn spec_pair_official(args: Seq<Seq<char>>, i: int) -> bool {
    args[i] == "--mcp-impl"@ && spec_eq_ignore_ascii_case(args[i + 1], "official"@)
}

/// Whether one argument is `--mcp-impl=official` (the value in any ASCII
/// case).
pub open spec fn spec_inline_flag_official(arg: Seq<char>) -> bool {
    match spec_strip_prefix(arg, "--mcp-impl="@) {
        Some(val) => spec_eq_ignore_ascii_case(val, "official"@),
        None => false,
    }
}

/// The server implementation selected by `CODEX_MCP_IMPL` and the command
/// line: official when either asks for it, legacy otherwise.
pub open spec fn spec_server_impl(env_value: Option<Seq<char>>, args: Seq<Seq<char>>) -> McpImpl {
    if (env_value matches Some(v) && spec_eq_ignore_ascii_case(v, "official"@))
        || spec_args_request_official(args) {
        McpImpl::Official
    } else {
        McpImpl::Legacy
    }
}

/// Selects the server implementation from the value of `CODEX_MCP_IMPL` and
/// the command-line arguments (without the program name).
pub fn select_server_impl(env_value: Option<&str>, args: &Vec<String>) -> (r: McpImpl)
    ensures
        r == spec_server_impl(
            match env_value {
                Some(v) => Some(v@),
                None => None,
            },
            args@.map_values(|s: String| s@),
        ),
{
    let ghost av = args@.map_values(|s: String| s@);
    let mut selected = match env_value {
        Some(v) => {
            if eq_ignore_ascii_case(v, "official") {
                McpImpl::Official
            } else {
                McpImpl::Legacy
            }
        },
        None => McpImpl::Legacy,
    };
    let ghost env_official = env_value matches Some(v) && spec_eq_ignore_ascii_case(v@, "official"@);
    let n = args.len();
    let mut pair_found = false;
    for i in 0..n
        invariant
            n == args@.len(),
            av == args@.map_values(|s: String| s@),
            pair_found == exists|j: int| 0 <= j < i && j < n - 1 && #[trigger] spec_pair_official(av, j),
    {
        if i + 1 < n {
            assert(av[i as int] == args@[i as int]@);
            assert(av[i + 1] == args@[i + 1]@);
            if str_eq(args[i].as_str(), "--mcp-impl") && eq_ignore_ascii_case(
                args[i + 1].as_str(),
                "official",
            ) {
                pair_found = true;
                assert(spec_pair_official(av, i as int));
            }
        }
    }
    let mut eq_found = false;
    for k in 0..n
        invariant
            n == args@.len(),
            av == args@.map_values(|s: String| s@),
            eq_found == exists|j: int| 0 <= j < k && #[trigger] spec_inline_flag_official(av[j]),
    {
        assert(av[k as int] == args@[k as int]@);
        proof {
            reveal_strlit("official");
        }
        match strip_prefix(args[k].as_str(), "--mcp-impl=") {
            Some(rest) => {
                let off = chars_of("official");
                if eq_ignore_ascii_case_chars(&rest, &off) {
                    eq_found = true;
                    assert(spec_inline_flag_official(av[k as int]));
                }
            },
            None => {},
        }
    }
    if pair_found || eq_found {
        selected = McpImpl::Official;
    }
    selected
}

/// Process-local override of the client implementation: the first value set
/// stays (later sets are ignored).
pub struct ClientImplOverride {
    value: Option<String>,
}

impl ClientImplOverride {
    pub closed spec fn view(&self) -> Option<Seq<char>> {
        match self.value {
            Some(v) => Some(v@),
            None => None,
        }
    }

    pub fn new() -> (o: Self)
        ensures
            o.view().is_none(),
    {
        ClientImplOverride { value: None }
    }

    /// The client implementation in use, given the value of
    /// `CODEX_MCP_CLIENT_IMPL` (`None` when unset): the override wins, then
    /// the variable (`official` in any ASCII case), then `legacy`.
    pub fn selected_client_impl_for_tests(&self, env_value: Option<&str>) -> (r: &'static str)
        ensures
            r@ == spec_client_impl(
                self.view(),
                match env_value {
                    Some(v) => Some(v@),
                    None => None,
                },
            ),
    {
        let chosen: Option<&str> = match &self.value {
            Some(v) => Some(v.as_str()),
            None => env_value,
        };
        match chosen {
            Some(v) => {
                if eq_ignore_ascii_case(v, "official") {
                    "official"
                } else {
                    "legacy"
                }
            },
            None => "legacy",
        }
    }
}

/// Whether an override value is accepted: `legacy` or `official`, in any
/// ASCII case.
pub open spec fn spec_known_impl_name(name: Seq<char>) -> bool {
    spec_eq_ignore_ascii_case(name, "legacy"@) || spec_eq_ignore_ascii_case(name, "official"@)
}

/// The override after a request to set it to `name`: set by the first
/// accepted value, unchanged by unknown values and once set.
pub open spec fn spec_after_override(current: Option<Seq<char>>, name: Seq<char>) -> Option<Seq<char>> {
    if current.is_none() && spec_known_impl_name(name) {
        Some(name)
    } else {
        current
    }
}

/// The client implementation selected by the override and the value of
/// `CODEX_MCP_CLIENT_IMPL`: the override if set, else the variable;
/// `official` when that names it in any ASCII case, `legacy` otherwise.
pub open spec fn spec_client_impl(current: Option<Seq<char>>, env_value: Option<Seq<char>>) -> Seq<char> {
    let chosen = if current is Some {
        current
    } else {
        env_value
    };
    if chosen matches Some(v) && spec_eq_ignore_ascii_case(v, "official"@) {
        "official"@
    } else {
        "legacy"@
    }
}

/// Set a process-local override for the MCP client implementation. Accepts
/// "legacy" or "official" (in any ASCII case); unknown values are ignored,
/// and only the first accepted value takes effect.
pub fn set_client_impl_override(state: &mut ClientImplOverride, impl_name: &str)
    ensures
        final(state).view() == spec_after_override(old(state).view(), impl_name@),
{
    if state.value.is_none() && (eq_ignore_ascii_case(impl_name, "legacy")
        || eq_ignore_ascii_case(impl_name, "official")) {
        state.value = Some(impl_name.to_owned());
    }
}

/// The command-line flag wins over the environment variable.
pub proof fn lemma_flag_beats_env(flag: McpImpl, env_value: Option<Seq<char>>)
    ensures
        spec_selected(Some(flag), env_value) == flag,
{
}

/// Without a flag the environment variable decides, and without either the
/// legacy implementation is used.
pub proof fn lemma_env_then_legacy(v: Seq<char>)
    ensures
        spec_selected(None, Some(v)) == spec_impl_from_name(v),
        spec_selected(None, None) == McpImpl::Legacy,
        spec_impl_from_name("OFFICIAL"@) == McpImpl::Official,
        spec_impl_from_name("legacy"@) == McpImpl::Legacy,
{
    reveal_strlit("OFFICIAL");
    reveal_strlit("official");
    reveal_strlit("legacy");
    assert(crate::text::spec_lower_seq("OFFICIAL"@) =~= crate::text::spec_lower_seq("official"@));
    assert(crate::text::spec_lower_seq("legacy"@)[0] != crate::text::spec_lower_seq("official"@)[0]);
}

/// For the server, a command line that asks for the official
/// implementation wins over the environment; a variable asking for it is
/// enough on its own (the command line cannot ask for legacy over it).
pub proof fn lemma_server_selection(env_value: Option<Seq<char>>, args: Seq<Seq<char>>)
    ensures
        spec_args_request_official(args) ==> spec_server_impl(env_value, args) == McpImpl::Official,
        (env_value matches Some(v) && spec_eq_ignore_ascii_case(v, "official"@)) ==> spec_server_impl(
            env_value,
            args,
        ) == McpImpl::Official,
        !spec_args_request_official(args) && (env_value is None) ==> spec_server_impl(env_value, args)
            == McpImpl::Legacy,
{
}

/// The first accepted override stays: a later request changes nothing,
/// and an unknown value leaves the override unset, so a later accepted
/// value still takes effect.
pub proof fn lemma_first_override_wins(a: Seq<char>, b: Seq<char>)
    ensures
        spec_known_impl_name(a) ==> spec_after_override(spec_after_override(None, a), b) == Some(a),
        !spec_known_impl_name(a) ==> spec_after_override(None, a) is None,
        spec_client_impl(spec_after_override(None, "legacy"@), Some("official"@)) == "legacy"@,
        spec_client_impl(spec_after_override(spec_after_override(None, "bogus"@), "official"@), None)
            == "official"@,
{
    reveal_strlit("legacy");
    reveal_strlit("official");
    reveal_strlit("bogus");
    assert(crate::text::spec_lower_seq("legacy"@) =~= "legacy"@);
    assert(crate::text::spec_lower_seq("official"@) =~= "official"@);
    assert(crate::text::spec_lower_seq("legacy"@)[0] != crate::text::spec_lower_seq("official"@)[0]);
    assert(crate::text::spec_lower_seq("bogus"@)[0] != crate::text::spec_lower_seq("official"@)[0]);
    assert(crate::text::spec_lower_seq("bogus"@)[0] != crate::text::spec_lower_seq("legacy"@)[0]);
}

/// For the client, the override wins over `CODEX_MCP_CLIENT_IMPL`; without
/// an override the variable decides, and without either `legacy` is used.
pub proof fn lemma_client_precedence(o: Seq<char>, env_value: Option<Seq<char>>)
    ensures
        spec_client_impl(Some(o), env_value) == spec_client_impl(Some(o), None),
        spec_client_impl(None, env_value) == spec_client_impl(env_value, None),
        spec_client_impl(None, None) == "legacy"@,
{
}

/// The server runs the official implementation exactly when
/// `CODEX_MCP_IMPL` spells `official` (ASCII case aside) or the command line
/// asks for it; any other value of the variable, with a command line that
/// does not ask, keeps the legacy implementation.
pub proof fn lemma_server_legacy_unless_official(env_value: Option<Seq<char>>, args: Seq<Seq<char>>)
    ensures
        spec_server_impl(env_value, args) == McpImpl::Official <==> (
            (env_value matches Some(v) && crate::text::spec_lower_seq(v) == "official"@)
            || spec_args_request_official(args)),
        args.len() == 0 ==> !spec_args_request_official(args),
        env_value matches Some(v) && crate::text::spec_lower_seq(v) != "official"@ && args.len() == 0
            ==> spec_server_impl(env_value, args) == McpImpl::Legacy,
{
    reveal_strlit("official");
    assert(crate::text::spec_lower_seq("official"@) =~= "official"@);
}

} // verus!
