//! Changes to the active credentials that keep the rest of the store.

use vstd::prelude::*;
use super::model::{
    AgentIdentityAuthRecord, AgentIdentityAuthRecordView, AgentIdentityStorage,
    AgentIdentityStorageView, AuthDotJson, AuthView, IdTokenInfo, Timestamp, TokenData,
    TokenDataView, opt_str_view,
};

verus! {

pub enum MutationView {
    Replace(AuthView),
    AgentIdentity(AgentIdentityAuthRecordView),
    Tokens {
        id_token: Option<Seq<char>>,
        access_token: Option<Seq<char>>,
        refresh_token: Option<Seq<char>>,
        refreshed_at: Timestamp,
    },
}

/// A change to the active credentials.
pub enum ActiveAuthMutation {
    /// Replace the active credentials wholesale (also seeds an empty store).
    Replace(AuthDotJson),
    /// Record a decoded agent identity.
    AgentIdentity(AgentIdentityAuthRecord),
    /// Refresh OAuth tokens; absent tokens are kept.
    Tokens {
        id_token: Option<IdTokenInfo>,
        access_token: Option<String>,
        refresh_token: Option<String>,
        refreshed_at: Timestamp,
    },
}

impl View for ActiveAuthMutation {
    type V = MutationView;

    open spec fn view(&self) -> MutationView {
        match self {
            ActiveAuthMutation::Replace(a) => MutationView::Replace(a@),
            ActiveAuthMutation::AgentIdentity(r) => MutationView::AgentIdentity(r@),
            ActiveAuthMutation::Tokens { id_token, access_token, refresh_token, refreshed_at } =>
                MutationView::Tokens {
                id_token: match id_token {
                    Some(t) => Some(t@),
                    None => None,
                },
                access_token: opt_str_view(*access_token),
                refresh_token: opt_str_view(*refresh_token),
                refreshed_at: *refreshed_at,
            },
        }
    }
}

/// The auth a mutation starts from when nothing is stored.
pub open spec fn spec_seed(m: MutationView) -> Option<AuthView> {
    match m {
        MutationView::Replace(a) => Some(a),
        _ => None,
    }
}

pub open spec fn spec_empty_tokens() -> TokenDataView {
    TokenDataView {
        id_token: Seq::empty(),
        access_token: Seq::empty(),
        refresh_token: Seq::empty(),
        account_id: None,
    }
}

/// The active credentials after a mutation.
pub open spec fn spec_apply(m: MutationView, auth: AuthView) -> AuthView {
    match m {
        MutationView::Replace(a) => a,
        MutationView::AgentIdentity(r) => AuthView {
            agent_identity: Some(AgentIdentityStorageView::Record(r)),
            ..auth
        },
        MutationView::Tokens { id_token, access_token, refresh_token, refreshed_at } => {
            let t = match auth.tokens {
                Some(t) => t,
                None => spec_empty_tokens(),
            };
            AuthView {
                tokens: Some(
                    TokenDataView {
                        id_token: match id_token {
                            Some(i) => i,
                            None => t.id_token,
                        },
                        access_token: match access_token {
                            Some(a) => a,
                            None => t.access_token,
                        },
                        refresh_token: match refresh_token {
                            Some(r) => r,
                            None => t.refresh_token,
                        },
                        ..t
                    },
                ),
                last_refresh: Some(refreshed_at),
                ..auth
            }
        },
    }
}

impl ActiveAuthMutation {
    /// The credentials to start from when no store exists yet.
    pub fn seed(&self) -> (r: Option<AuthDotJson>)
        ensures
            match r {
                Some(a) => spec_seed(self@) == Some(a@),
                None => spec_seed(self@).is_none(),
            },
    {
        match self {
            ActiveAuthMutation::Replace(auth) => Some(auth.clone()),
            _ => None,
        }
    }

    /// Applies the change to the active credentials.
    pub fn apply(self, auth: &mut AuthDotJson)
        ensures
            final(auth)@ == spec_apply(self@, old(auth)@),
    {
        match self {
            ActiveAuthMutation::Replace(replacement) => {
                *auth = replacement;
            },
            ActiveAuthMutation::AgentIdentity(record) => {
                auth.agent_identity = Some(AgentIdentityStorage::Record(record));
            },
            ActiveAuthMutation::Tokens { id_token, access_token, refresh_token, refreshed_at } => {
                let mut tokens = match auth.tokens.take() {
                    Some(t) => t,
                    None => TokenData::empty(),
                };
                if let Some(id_token) = id_token {
                    tokens.id_token = id_token;
                }
                if let Some(access_token) = access_token {
                    tokens.access_token = access_token;
                }
                if let Some(refresh_token) = refresh_token {
                    tokens.refresh_token = refresh_token;
                }
                auth.tokens = Some(tokens);
                auth.last_refresh = Some(refreshed_at);
            },
        }
    }
}

} // verus!
