//! The auth document: active credentials at the root, with optional
//! profiles of other accounts. Each type has a view over sequences of
//! characters, which the contracts speak of.

use vstd::prelude::*;
use crate::text::{spec_trim, trim_is_empty};

verus! {

pub open spec fn opt_str_view(o: Option<String>) -> Option<Seq<char>> {
    match o {
        Some(s) => Some(s@),
        None => None,
    }
}

pub fn clone_opt_str(o: &Option<String>) -> (r: Option<String>)
    ensures
        opt_str_view(r) == opt_str_view(*o),
{
    match o {
        Some(s) => Some(s.clone()),
        None => None,
    }
}

pub fn opt_str_eq(a: &Option<String>, b: &Option<String>) -> (r: bool)
    ensures
        r == (opt_str_view(*a) == opt_str_view(*b)),
{
    match (a, b) {
        (Some(x), Some(y)) => *x == *y,
        (None, None) => true,
        _ => false,
    }
}

/// How the active credentials authenticate.
#[derive(Debug, Clone, Copy, PartialEq, Eq, Structural)]
pub enum AuthMode {
    ApiKey,
    Chatgpt,
    BedrockApiKey,
    BedrockAccessKeys,
}

/// A point in time: seconds since the Unix epoch and the nanoseconds within
/// that second.
#[derive(Debug, Clone, Copy, PartialEq, Eq, Structural)]
pub struct Timestamp {
    pub secs: i64,
    pub nanos: u32,
}

/// An ID token, held as the raw JWT it was parsed from.
#[derive(Debug, PartialEq)]
pub struct IdTokenInfo {
    pub raw_jwt: String,
}

impl View for IdTokenInfo {
    type V = Seq<char>;

    open spec fn view(&self) -> Seq<char> {
        self.raw_jwt@
    }
}

impl Clone for IdTokenInfo {
    fn clone(&self) -> (r: Self)
        ensures
            r@ == self@,
    {
        IdTokenInfo { raw_jwt: self.raw_jwt.clone() }
    }
}

pub struct TokenDataView {
    pub id_token: Seq<char>,
    pub access_token: Seq<char>,
    pub refresh_token: Seq<char>,
    pub account_id: Option<Seq<char>>,
}

/// OAuth tokens of a ChatGPT login.
#[derive(Debug, PartialEq)]
pub struct TokenData {
    pub id_token: IdTokenInfo,
    pub access_token: String,
    pub refresh_token: String,
    pub account_id: Option<String>,
}

impl View for TokenData {
    type V = TokenDataView;

    open spec fn view(&self) -> TokenDataView {
        TokenDataView {
            id_token: self.id_token@,
            access_token: self.access_token@,
            refresh_token: self.refresh_token@,
            account_id: opt_str_view(self.account_id),
        }
    }
}

impl Clone for TokenData {
    fn clone(&self) -> (r: Self)
        ensures
            r@ == self@,
    {
        TokenData {
            id_token: self.id_token.clone(),
            access_token: self.access_token.clone(),
            refresh_token: self.refresh_token.clone(),
            account_id: clone_opt_str(&self.account_id),
        }
    }
}

impl TokenData {
    /// Empty tokens (what `TokenData::default()` gives).
    pub fn empty() -> (r: Self)
        ensures
            r@ == (TokenDataView {
                id_token: Seq::empty(),
                access_token: Seq::empty(),
                refresh_token: Seq::empty(),
                account_id: None,
            }),
    {
        TokenData {
            id_token: IdTokenInfo { raw_jwt: String::new() },
            access_token: String::new(),
            refresh_token: String::new(),
            account_id: None,
        }
    }

    pub fn same_as(&self, other: &Self) -> (r: bool)
        ensures
            r == (self@ == other@),
    {
        self.id_token.raw_jwt == other.id_token.raw_jwt && self.access_token == other.access_token
            && self.refresh_token == other.refresh_token && opt_str_eq(
            &self.account_id,
            &other.account_id,
        )
    }
}

pub struct AgentIdentityAuthRecordView {
    pub agent_runtime_id: Seq<char>,
    pub agent_private_key: Seq<char>,
    pub account_id: Seq<char>,
    pub chatgpt_user_id: Seq<char>,
    pub email: Option<Seq<char>>,
    pub plan_type: Seq<char>,
    pub chatgpt_account_is_fedramp: bool,
    pub task_id: Option<Seq<char>>,
}

/// Credentials of an agent identity.
#[derive(Debug, PartialEq, Eq)]
pub struct AgentIdentityAuthRecord {
    pub agent_runtime_id: String,
    pub agent_private_key: String,
    pub account_id: String,
    pub chatgpt_user_id: String,
    pub email: Option<String>,
    /// The account's plan, by its serialized name.
    pub plan_type: String,
    pub chatgpt_account_is_fedramp: bool,
    pub task_id: Option<String>,
}

impl View for AgentIdentityAuthRecord {
    type V = AgentIdentityAuthRecordView;

    open spec fn view(&self) -> AgentIdentityAuthRecordView {
        AgentIdentityAuthRecordView {
            agent_runtime_id: self.agent_runtime_id@,
            agent_private_key: self.agent_private_key@,
            account_id: self.account_id@,
            chatgpt_user_id: self.chatgpt_user_id@,
            email: opt_str_view(self.email),
            plan_type: self.plan_type@,
            chatgpt_account_is_fedramp: self.chatgpt_account_is_fedramp,
            task_id: opt_str_view(self.task_id),
        }
    }
}

impl Clone for AgentIdentityAuthRecord {
    fn clone(&self) -> (r: Self)
        ensures
            r@ == self@,
    {
        AgentIdentityAuthRecord {
            agent_runtime_id: self.agent_runtime_id.clone(),
            agent_private_key: self.agent_private_key.clone(),
            account_id: self.account_id.clone(),
            chatgpt_user_id: self.chatgpt_user_id.clone(),
            email: clone_opt_str(&self.email),
            plan_type: self.plan_type.clone(),
            chatgpt_account_is_fedramp: self.chatgpt_account_is_fedramp,
            task_id: clone_opt_str(&self.task_id),
        }
    }
}

/// What a decoded agent identity JWT carries.
pub struct AgentIdentityClaims {
    pub agent_runtime_id: String,
    pub agent_private_key: String,
    pub account_id: String,
    pub chatgpt_user_id: String,
    pub email: Option<String>,
    /// The account's plan, by its serialized name.
    pub plan_type: String,
    pub chatgpt_account_is_fedramp: bool,
}

impl AgentIdentityAuthRecord {
    /// The record stored for decoded claims: every claim is kept, and no
    /// task is attached yet.
    pub fn from_claims(claims: AgentIdentityClaims) -> (r: Self)
        ensures
            r@ == (AgentIdentityAuthRecordView {
                agent_runtime_id: claims.agent_runtime_id@,
                agent_private_key: claims.agent_private_key@,
                account_id: claims.account_id@,
                chatgpt_user_id: claims.chatgpt_user_id@,
                email: opt_str_view(claims.email),
                plan_type: claims.plan_type@,
                chatgpt_account_is_fedramp: claims.chatgpt_account_is_fedramp,
                task_id: None,
            }),
    {
        AgentIdentityAuthRecord {
            agent_runtime_id: claims.agent_runtime_id,
            agent_private_key: claims.agent_private_key,
            account_id: claims.account_id,
            chatgpt_user_id: claims.chatgpt_user_id,
            email: claims.email,
            plan_type: claims.plan_type,
            chatgpt_account_is_fedramp: claims.chatgpt_account_is_fedramp,
            task_id: None,
        }
    }

    pub fn same_as(&self, other: &Self) -> (r: bool)
        ensures
            r == (self@ == other@),
    {
        self.agent_runtime_id == other.agent_runtime_id && self.agent_private_key
            == other.agent_private_key && self.account_id == other.account_id
            && self.chatgpt_user_id == other.chatgpt_user_id && opt_str_eq(
            &self.email,
            &other.email,
        ) && self.plan_type == other.plan_type && self.chatgpt_account_is_fedramp
            == other.chatgpt_account_is_fedramp && opt_str_eq(&self.task_id, &other.task_id)
    }
}

pub enum AgentIdentityStorageView {
    Jwt(Seq<char>),
    Record(AgentIdentityAuthRecordView),
}

/// An agent identity: a JWT still to be decoded, or its decoded record.
#[derive(Debug, PartialEq, Eq)]
pub enum AgentIdentityStorage {
    Jwt(String),
    Record(AgentIdentityAuthRecord),
}

impl View for AgentIdentityStorage {
    type V = AgentIdentityStorageView;

    open spec fn view(&self) -> AgentIdentityStorageView {
        match self {
            AgentIdentityStorage::Jwt(j) => AgentIdentityStorageView::Jwt(j@),
            AgentIdentityStorage::Record(r) => AgentIdentityStorageView::Record(r@),
        }
    }
}

impl Clone for AgentIdentityStorage {
    fn clone(&self) -> (r: Self)
        ensures
            r@ == self@,
    {
        match self {
            AgentIdentityStorage::Jwt(j) => AgentIdentityStorage::Jwt(j.clone()),
            AgentIdentityStorage::Record(r) => AgentIdentityStorage::Record(r.clone()),
        }
    }
}

impl AgentIdentityStorage {
    pub fn same_as(&self, other: &Self) -> (r: bool)
        ensures
            r == (self@ == other@),
    {
        match (self, other) {
            (AgentIdentityStorage::Jwt(a), AgentIdentityStorage::Jwt(b)) => *a == *b,
            (AgentIdentityStorage::Record(a), AgentIdentityStorage::Record(b)) => a.same_as(b),
            _ => false,
        }
    }
}

pub struct BedrockApiKeyAuthView {
    pub api_key: Seq<char>,
    pub region: Seq<char>,
}

/// An Amazon Bedrock API key and its region.
#[derive(Debug, PartialEq)]
pub struct BedrockApiKeyAuth {
    pub api_key: String,
    pub region: String,
}

impl View for BedrockApiKeyAuth {
    type V = BedrockApiKeyAuthView;

    open spec fn view(&self) -> BedrockApiKeyAuthView {
        BedrockApiKeyAuthView { api_key: self.api_key@, region: self.region@ }
    }
}

impl Clone for BedrockApiKeyAuth {
    fn clone(&self) -> (r: Self)
        ensures
            r@ == self@,
    {
        BedrockApiKeyAuth { api_key: self.api_key.clone(), region: self.region.clone() }
    }
}

pub struct BedrockAccessKeysAuthView {
    pub access_key_id: Seq<char>,
    pub secret_access_key: Seq<char>,
    pub session_token: Option<Seq<char>>,
}

/// Amazon Bedrock access keys.
#[derive(Debug, PartialEq)]
pub struct BedrockAccessKeysAuth {
    pub access_key_id: String,
    pub secret_access_key: String,
    pub session_token: Option<String>,
}

impl View for BedrockAccessKeysAuth {
    type V = BedrockAccessKeysAuthView;

    open spec fn view(&self) -> BedrockAccessKeysAuthView {
        BedrockAccessKeysAuthView {
            access_key_id: self.access_key_id@,
            secret_access_key: self.secret_access_key@,
            session_token: opt_str_view(self.session_token),
        }
    }
}

impl Clone for BedrockAccessKeysAuth {
    fn clone(&self) -> (r: Self)
        ensures
            r@ == self@,
    {
        BedrockAccessKeysAuth {
            access_key_id: self.access_key_id.clone(),
            secret_access_key: self.secret_access_key.clone(),
            session_token: clone_opt_str(&self.session_token),
        }
    }
}

pub struct AuthView {
    pub auth_mode: Option<AuthMode>,
    pub openai_api_key: Option<Seq<char>>,
    pub tokens: Option<TokenDataView>,
    pub last_refresh: Option<Timestamp>,
    pub agent_identity: Option<AgentIdentityStorageView>,
    pub personal_access_token: Option<Seq<char>>,
    pub bedrock_api_key: Option<BedrockApiKeyAuthView>,
    pub bedrock_access_keys: Option<BedrockAccessKeysAuthView>,
}

/// Expected structure for $CODEX_HOME/auth.json.
#[derive(Debug, PartialEq)]
pub struct AuthDotJson {
    pub auth_mode: Option<AuthMode>,
    pub openai_api_key: Option<String>,
    pub tokens: Option<TokenData>,
    pub last_refresh: Option<Timestamp>,
    pub agent_identity: Option<AgentIdentityStorage>,
    pub personal_access_token: Option<String>,
    pub bedrock_api_key: Option<BedrockApiKeyAuth>,
    pub bedrock_access_keys: Option<BedrockAccessKeysAuth>,
}

impl View for AuthDotJson {
    type V = AuthView;

    open spec fn view(&self) -> AuthView {
        AuthView {
            auth_mode: self.auth_mode,
            openai_api_key: opt_str_view(self.openai_api_key),
            tokens: match self.tokens {
                Some(t) => Some(t@),
                None => None,
            },
            last_refresh: self.last_refresh,
            agent_identity: match self.agent_identity {
                Some(a) => Some(a@),
                None => None,
            },
            personal_access_token: opt_str_view(self.personal_access_token),
            bedrock_api_key: match self.bedrock_api_key {
                Some(b) => Some(b@),
                None => None,
            },
            bedrock_access_keys: match self.bedrock_access_keys {
                Some(b) => Some(b@),
                None => None,
            },
        }
    }
}

impl Clone for AuthDotJson {
    fn clone(&self) -> (r: Self)
        ensures
            r@ == self@,
    {
        AuthDotJson {
            auth_mode: self.auth_mode,
            openai_api_key: clone_opt_str(&self.openai_api_key),
            tokens: match &self.tokens {
                Some(t) => Some(t.clone()),
                None => None,
            },
            last_refresh: self.last_refresh,
            agent_identity: match &self.agent_identity {
                Some(a) => Some(a.clone()),
                None => None,
            },
            personal_access_token: clone_opt_str(&self.personal_access_token),
            bedrock_api_key: match &self.bedrock_api_key {
                Some(b) => Some(b.clone()),
                None => None,
            },
            bedrock_access_keys: match &self.bedrock_access_keys {
                Some(b) => Some(b.clone()),
                None => None,
            },
        }
    }
}

impl AuthDotJson {
    /// Whether two documents hold the same credentials.
    pub fn same_as(&self, other: &Self) -> (r: bool)
        ensures
            r == (self@ == other@),
    {
        let modes = match (self.auth_mode, other.auth_mode) {
            (Some(a), Some(b)) => a == b,
            (None, None) => true,
            _ => false,
        };
        let tokens = match (&self.tokens, &other.tokens) {
            (Some(a), Some(b)) => a.same_as(b),
            (None, None) => true,
            _ => false,
        };
        let refresh = match (self.last_refresh, other.last_refresh) {
            (Some(a), Some(b)) => a.secs == b.secs && a.nanos == b.nanos,
            (None, None) => true,
            _ => false,
        };
        let agent = match (&self.agent_identity, &other.agent_identity) {
            (Some(a), Some(b)) => a.same_as(b),
            (None, None) => true,
            _ => false,
        };
        let bedrock_key = match (&self.bedrock_api_key, &other.bedrock_api_key) {
            (Some(a), Some(b)) => a.api_key == b.api_key && a.region == b.region,
            (None, None) => true,
            _ => false,
        };
        let bedrock_access = match (&self.bedrock_access_keys, &other.bedrock_access_keys) {
            (Some(a), Some(b)) => a.access_key_id == b.access_key_id && a.secret_access_key
                == b.secret_access_key && opt_str_eq(&a.session_token, &b.session_token),
            (None, None) => true,
            _ => false,
        };
        modes && opt_str_eq(&self.openai_api_key, &other.openai_api_key) && tokens && refresh
            && agent && opt_str_eq(&self.personal_access_token, &other.personal_access_token)
            && bedrock_key && bedrock_access
    }
}

/// Whether an agent identity carries usable credentials: a JWT that is not
/// blank, or a record whose runtime id and private key are not blank.
pub open spec fn spec_has_auth_material(a: AgentIdentityStorageView) -> bool {
    match a {
        AgentIdentityStorageView::Jwt(jwt) => spec_trim(jwt).len() != 0,
        AgentIdentityStorageView::Record(r) => spec_trim(r.agent_runtime_id).len() != 0 && spec_trim(
            r.agent_private_key,
        ).len() != 0,
    }
}

impl AgentIdentityStorage {
    pub fn has_auth_material(&self) -> (r: bool)
        ensures
            r == spec_has_auth_material(self@),
    {
        match self {
            AgentIdentityStorage::Jwt(jwt) => !trim_is_empty(jwt.as_str()),
            AgentIdentityStorage::Record(record) => {
                !trim_is_empty(record.agent_runtime_id.as_str()) && !trim_is_empty(
                    record.agent_private_key.as_str(),
                )
            },
        }
    }

    /// The decoded record, if this identity holds one.
    pub fn as_record(&self) -> (r: Option<&AgentIdentityAuthRecord>)
        ensures
            match r {
                Some(rec) => self@ == AgentIdentityStorageView::Record(rec@),
                None => self@ is Jwt,
            },
    {
        match self {
            AgentIdentityStorage::Jwt(_) => None,
            AgentIdentityStorage::Record(record) => Some(record),
        }
    }
}

/// How an optional email is read: an empty string means no email.
pub fn deserialize_optional_non_empty_string(value: Option<String>) -> (r: Option<String>)
    ensures
        opt_str_view(r) == (match value {
            Some(v) => if v@.len() == 0 {
                None
            } else {
                Some(v@)
            },
            None => None,
        }),
{
    match value {
        Some(v) => if v.as_str().is_empty() {
            None
        } else {
            Some(v)
        },
        None => None,
    }
}

/// How an optional email is written: no email is an empty string.
pub fn serialize_optional_string_as_empty(value: &Option<String>) -> (r: String)
    ensures
        r@ == (match value {
            Some(v) => v@,
            None => Seq::empty(),
        }),
{
    match value {
        Some(v) => v.clone(),
        None => String::new(),
    }
}

} // verus!
