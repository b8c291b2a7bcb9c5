use vstd::prelude::*;

use crate::browser_cli::cat3;
use crate::browser_cli::clone_opt_string;
use crate::browser_cli::clone_string;
use crate::browser_cli::env_lookup;
use crate::browser_cli::env_value;
use crate::browser_cli::env_view;
use crate::browser_cli::opt_view;
use crate::text::owned;
use crate::text::str_eq;
use crate::text::trim;
use crate::text::trim_end_char;
use crate::text::trim_seq;
use crate::state::now_millis;

verus! {

// ---------------------------------------------------------------------------
// Credentials
// ---------------------------------------------------------------------------

/// How a session authenticates.
#[derive(Debug, Clone, Copy, PartialEq, Eq, Structural)]
pub enum AuthMode {
    ApiKey,
    Chatgpt,
    ChatgptAuthTokens,
    AgentIdentity,
}

/// Where credentials are kept.
#[derive(Debug, Clone, Copy, PartialEq, Eq, Structural)]
pub enum AuthCredentialsStoreMode {
    File,
    Keyring,
    Auto,
    Ephemeral,
}

/// What an ID token says about the account.
#[derive(Debug, Clone, PartialEq, Eq)]
pub struct IdTokenInfo {
    pub email: Option<String>,
    pub chatgpt_plan_type: Option<String>,
    pub chatgpt_user_id: Option<String>,
    pub chatgpt_account_id: Option<String>,
    pub chatgpt_account_is_fedramp: bool,
    pub raw_jwt: String,
}

#[derive(Debug, Clone, PartialEq, Eq)]
pub struct TokenData {
    pub id_token: IdTokenInfo,
    pub access_token: String,
    pub refresh_token: String,
    pub account_id: Option<String>,
}

/// The contents of `auth.json`. Times are milliseconds since the Unix epoch.
#[derive(Debug, Clone, PartialEq, Eq)]
pub struct AuthDotJson {
    pub auth_mode: Option<AuthMode>,
    pub openai_api_key: Option<String>,
    pub tokens: Option<TokenData>,
    pub last_refresh: Option<i64>,
    pub agent_identity: Option<String>,
}

/// The mode an `auth.json` stands for: the one it names, else an API key if
/// it holds one, else an agent identity if it holds one, else ChatGPT.
pub open spec fn resolved_mode_spec(a: AuthDotJson) -> AuthMode {
    match a.auth_mode {
        Some(m) => m,
        None => if a.openai_api_key is Some {
            AuthMode::ApiKey
        } else if a.agent_identity is Some {
            AuthMode::AgentIdentity
        } else {
            AuthMode::Chatgpt
        },
    }
}

impl AuthDotJson {
    pub fn resolved_mode(&self) -> (r: AuthMode)
        ensures
            r == resolved_mode_spec(*self),
    {
        if let Some(mode) = self.auth_mode {
            return mode;
        }
        if self.openai_api_key.is_some() {
            return AuthMode::ApiKey;
        }
        if self.agent_identity.is_some() {
            return AuthMode::AgentIdentity;
        }
        AuthMode::Chatgpt
    }

    /// Externally supplied tokens are never persisted.
    pub fn storage_mode(&self, configured: AuthCredentialsStoreMode) -> (r: AuthCredentialsStoreMode)
        ensures
            r == (if self.auth_mode == Some(AuthMode::ChatgptAuthTokens) {
                AuthCredentialsStoreMode::Ephemeral
            } else {
                configured
            }),
    {
        if self.auth_mode == Some(AuthMode::ChatgptAuthTokens) {
            AuthCredentialsStoreMode::Ephemeral
        } else {
            configured
        }
    }

    /// The `auth.json` of an access token handed in from outside.
    pub fn from_external_access_token(
        access_token: &str,
        chatgpt_account_id: &str,
        chatgpt_plan_type: Option<&str>,
    ) -> (r: Result<AuthDotJson, String>)
        ensures
            r matches Ok(a) && external_auth_json_is(a, access_token@, chatgpt_account_id@, match chatgpt_plan_type {
                Some(p) => Some(p@),
                None => None,
            }),
    {
        let plan_type = match chatgpt_plan_type {
            Some(p) => Some(owned(p)),
            None => None,
        };
        let now = now_millis();
        Ok(AuthDotJson {
            auth_mode: Some(AuthMode::ChatgptAuthTokens),
            openai_api_key: None,
            tokens: Some(TokenData {
                id_token: IdTokenInfo {
                    email: None,
                    chatgpt_plan_type: plan_type,
                    chatgpt_user_id: None,
                    chatgpt_account_id: Some(owned(chatgpt_account_id)),
                    chatgpt_account_is_fedramp: false,
                    raw_jwt: String::new(),
                },
                access_token: owned(access_token),
                refresh_token: String::new(),
                account_id: Some(owned(chatgpt_account_id)),
            }),
            last_refresh: Some(now),
            agent_identity: None,
        })
    }
}

/// The `auth.json` made for externally supplied ChatGPT tokens.
pub open spec fn external_auth_json_is(
    a: AuthDotJson,
    access_token: Seq<char>,
    account_id: Seq<char>,
    plan_type: Option<Seq<char>>,
) -> bool {
    &&& a.auth_mode == Some(AuthMode::ChatgptAuthTokens)
    &&& a.openai_api_key is None
    &&& a.agent_identity is None
    &&& a.last_refresh is Some
    &&& a.tokens matches Some(t) && {
        &&& t.access_token@ == access_token
        &&& t.refresh_token@.len() == 0
        &&& opt_view(t.account_id) == Some(account_id)
        &&& t.id_token.email is None
        &&& opt_view(t.id_token.chatgpt_plan_type) == plan_type
        &&& t.id_token.chatgpt_user_id is None
        &&& opt_view(t.id_token.chatgpt_account_id) == Some(account_id)
        &&& !t.id_token.chatgpt_account_is_fedramp
        &&& t.id_token.raw_jwt@.len() == 0
    }
}

/// A stored agent identity.
#[derive(Debug, Clone, PartialEq, Eq)]
pub struct AgentIdentityAuthRecord {
    pub agent_runtime_id: String,
    pub agent_private_key: String,
    pub account_id: String,
    pub chatgpt_user_id: String,
    pub email: String,
    pub plan_type: String,
    pub chatgpt_account_is_fedramp: bool,
    pub task_id: Option<String>,
}

#[derive(Debug, Clone)]
pub struct AgentIdentityAuth {
    pub record: AgentIdentityAuthRecord,
}

#[derive(Debug, Clone)]
pub struct ApiKeyAuth {
    pub api_key: String,
}

#[derive(Debug, Clone)]
pub struct ChatgptAuth {
    pub auth_dot_json: AuthDotJson,
}

#[derive(Debug, Clone)]
pub struct ChatgptAuthTokens {
    pub auth_dot_json: AuthDotJson,
}

/// The credentials of a session.
#[derive(Debug, Clone)]
pub enum CodexAuth {
    ApiKey(ApiKeyAuth),
    Chatgpt(ChatgptAuth),
    ChatgptAuthTokens(ChatgptAuthTokens),
    AgentIdentity(AgentIdentityAuth),
}

pub open spec fn auth_mode_of(a: CodexAuth) -> AuthMode {
    match a {
        CodexAuth::ApiKey(_) => AuthMode::ApiKey,
        CodexAuth::Chatgpt(_) => AuthMode::Chatgpt,
        CodexAuth::ChatgptAuthTokens(_) => AuthMode::ChatgptAuthTokens,
        CodexAuth::AgentIdentity(_) => AuthMode::AgentIdentity,
    }
}

/// The `auth.json` behind ChatGPT credentials.
pub open spec fn auth_json_of(a: CodexAuth) -> Option<AuthDotJson> {
    match a {
        CodexAuth::Chatgpt(c) => Some(c.auth_dot_json),
        CodexAuth::ChatgptAuthTokens(c) => Some(c.auth_dot_json),
        _ => None,
    }
}

pub open spec fn token_data_of(a: CodexAuth) -> Option<TokenData> {
    match auth_json_of(a) {
        Some(j) => j.tokens,
        None => None,
    }
}

impl CodexAuth {
    pub fn from_api_key(api_key: &str) -> (r: CodexAuth)
        ensures
            r matches CodexAuth::ApiKey(k) && k.api_key@ == api_key@,
    {
        CodexAuth::ApiKey(ApiKeyAuth { api_key: owned(api_key) })
    }

    pub fn auth_mode(&self) -> (r: AuthMode)
        ensures
            r == auth_mode_of(*self),
    {
        match self {
            CodexAuth::ApiKey(_) => AuthMode::ApiKey,
            CodexAuth::Chatgpt(_) => AuthMode::Chatgpt,
            CodexAuth::ChatgptAuthTokens(_) => AuthMode::ChatgptAuthTokens,
            CodexAuth::AgentIdentity(_) => AuthMode::AgentIdentity,
        }
    }

    pub fn api_auth_mode(&self) -> (r: AuthMode)
        ensures
            r == auth_mode_of(*self),
    {
        self.auth_mode()
    }

    pub fn is_api_key_auth(&self) -> (r: bool)
        ensures
            r == (auth_mode_of(*self) == AuthMode::ApiKey),
    {
        self.auth_mode() == AuthMode::ApiKey
    }

    pub fn is_chatgpt_auth(&self) -> (r: bool)
        ensures
            r == (*self is Chatgpt || *self is ChatgptAuthTokens),
    {
        match self {
            CodexAuth::Chatgpt(_) | CodexAuth::ChatgptAuthTokens(_) => true,
            _ => false,
        }
    }

    /// Everything but an API key talks to the Codex backend.
    pub fn uses_codex_backend(&self) -> (r: bool)
        ensures
            r == !(*self is ApiKey),
    {
        match self {
            CodexAuth::ApiKey(_) => false,
            _ => true,
        }
    }

    pub fn is_external_chatgpt_tokens(&self) -> (r: bool)
        ensures
            r == (*self is ChatgptAuthTokens),
    {
        match self {
            CodexAuth::ChatgptAuthTokens(_) => true,
            _ => false,
        }
    }

    pub fn api_key(&self) -> (r: Option<&str>)
        ensures
            match *self {
                CodexAuth::ApiKey(k) => r matches Some(s) && s@ == k.api_key@,
                _ => r is None,
            },
    {
        match self {
            CodexAuth::ApiKey(auth) => Some(auth.api_key.as_str()),
            _ => None,
        }
    }

    /// The `auth.json` behind ChatGPT credentials (borrowed: a copy would
    /// carry nothing a caller could rely on).
    pub fn get_current_auth_json(&self) -> (r: Option<&AuthDotJson>)
        ensures
            match r {
                Some(a) => auth_json_of(*self) == Some(*a),
                None => auth_json_of(*self) is None,
            },
    {
        match self {
            CodexAuth::Chatgpt(auth) => Some(&auth.auth_dot_json),
            CodexAuth::ChatgptAuthTokens(auth) => Some(&auth.auth_dot_json),
            _ => None,
        }
    }

    /// The bearer token: the API key, or the ChatGPT access token; an agent
    /// identity has none to give.
    pub fn get_token(&self) -> (r: Result<String, String>)
        ensures
            match *self {
                CodexAuth::ApiKey(k) => r matches Ok(t) && t@ == k.api_key@,
                CodexAuth::AgentIdentity(_) => r matches Err(m) && m@
                    == "agent identity auth does not expose a bearer token"@,
                _ => match token_data_of(*self) {
                    Some(t) => r matches Ok(s) && s@ == t.access_token@,
                    None => r matches Err(m) && m@ == "Token data is not available."@,
                },
            },
    {
        match self {
            CodexAuth::ApiKey(auth) => Ok(clone_string(&auth.api_key)),
            CodexAuth::AgentIdentity(_) => Err(owned("agent identity auth does not expose a bearer token")),
            CodexAuth::Chatgpt(auth) => match &auth.auth_dot_json.tokens {
                Some(t) => Ok(clone_string(&t.access_token)),
                None => Err(owned("Token data is not available.")),
            },
            CodexAuth::ChatgptAuthTokens(auth) => match &auth.auth_dot_json.tokens {
                Some(t) => Ok(clone_string(&t.access_token)),
                None => Err(owned("Token data is not available.")),
            },
        }
    }

    pub fn get_account_id(&self) -> (r: Option<String>)
        ensures
            match *self {
                CodexAuth::AgentIdentity(a) => opt_view(r) == Some(a.record.account_id@),
                _ => opt_view(r) == match token_data_of(*self) {
                    Some(t) => opt_view(t.account_id),
                    None => None,
                },
            },
    {
        match self {
            CodexAuth::AgentIdentity(a) => Some(clone_string(&a.record.account_id)),
            CodexAuth::ApiKey(_) => None,
            CodexAuth::Chatgpt(auth) => match &auth.auth_dot_json.tokens {
                Some(t) => clone_opt_string(&t.account_id),
                None => None,
            },
            CodexAuth::ChatgptAuthTokens(auth) => match &auth.auth_dot_json.tokens {
                Some(t) => clone_opt_string(&t.account_id),
                None => None,
            },
        }
    }

    pub fn get_account_email(&self) -> (r: Option<String>)
        ensures
            match *self {
                CodexAuth::AgentIdentity(a) => opt_view(r) == Some(a.record.email@),
                _ => opt_view(r) == match token_data_of(*self) {
                    Some(t) => opt_view(t.id_token.email),
                    None => None,
                },
            },
    {
        match self {
            CodexAuth::AgentIdentity(a) => Some(clone_string(&a.record.email)),
            CodexAuth::ApiKey(_) => None,
            CodexAuth::Chatgpt(auth) => match &auth.auth_dot_json.tokens {
                Some(t) => clone_opt_string(&t.id_token.email),
                None => None,
            },
            CodexAuth::ChatgptAuthTokens(auth) => match &auth.auth_dot_json.tokens {
                Some(t) => clone_opt_string(&t.id_token.email),
                None => None,
            },
        }
    }

    pub fn get_chatgpt_user_id(&self) -> (r: Option<String>)
        ensures
            match *self {
                CodexAuth::AgentIdentity(a) => opt_view(r) == Some(a.record.chatgpt_user_id@),
                _ => opt_view(r) == match token_data_of(*self) {
                    Some(t) => opt_view(t.id_token.chatgpt_user_id),
                    None => None,
                },
            },
    {
        match self {
            CodexAuth::AgentIdentity(a) => Some(clone_string(&a.record.chatgpt_user_id)),
            CodexAuth::ApiKey(_) => None,
            CodexAuth::Chatgpt(auth) => match &auth.auth_dot_json.tokens {
                Some(t) => clone_opt_string(&t.id_token.chatgpt_user_id),
                None => None,
            },
            CodexAuth::ChatgptAuthTokens(auth) => match &auth.auth_dot_json.tokens {
                Some(t) => clone_opt_string(&t.id_token.chatgpt_user_id),
                None => None,
            },
        }
    }

    pub fn is_fedramp_account(&self) -> (r: bool)
        ensures
            r == match *self {
                CodexAuth::AgentIdentity(a) => a.record.chatgpt_account_is_fedramp,
                _ => token_data_of(*self) matches Some(t) && t.id_token.chatgpt_account_is_fedramp,
            },
    {
        match self {
            CodexAuth::AgentIdentity(a) => a.record.chatgpt_account_is_fedramp,
            CodexAuth::ApiKey(_) => false,
            CodexAuth::Chatgpt(auth) => match &auth.auth_dot_json.tokens {
                Some(t) => t.id_token.chatgpt_account_is_fedramp,
                None => false,
            },
            CodexAuth::ChatgptAuthTokens(auth) => match &auth.auth_dot_json.tokens {
                Some(t) => t.id_token.chatgpt_account_is_fedramp,
                None => false,
            },
        }
    }
}

/// The credentials an `auth.json` stands for; an agent identity, or an API
/// key mode without a key, gives none.
pub open spec fn auth_from_json_is(r: Option<CodexAuth>, a: AuthDotJson) -> bool {
    match resolved_mode_spec(a) {
        AuthMode::ApiKey => match a.openai_api_key {
            Some(k) => r matches Some(CodexAuth::ApiKey(x)) && x.api_key@ == k@,
            None => r is None,
        },
        AuthMode::Chatgpt => r == Some(CodexAuth::Chatgpt(ChatgptAuth { auth_dot_json: a })),
        AuthMode::ChatgptAuthTokens => r == Some(
            CodexAuth::ChatgptAuthTokens(ChatgptAuthTokens { auth_dot_json: a }),
        ),
        AuthMode::AgentIdentity => r is None,
    }
}

pub fn codex_auth_from_auth_dot_json(auth_dot_json: AuthDotJson) -> (r: Option<CodexAuth>)
    ensures
        auth_from_json_is(r, auth_dot_json),
{
    match auth_dot_json.resolved_mode() {
        AuthMode::ApiKey => match &auth_dot_json.openai_api_key {
            Some(k) => Some(CodexAuth::from_api_key(k.as_str())),
            None => None,
        },
        AuthMode::Chatgpt => Some(CodexAuth::Chatgpt(ChatgptAuth { auth_dot_json })),
        AuthMode::ChatgptAuthTokens => Some(
            CodexAuth::ChatgptAuthTokens(ChatgptAuthTokens { auth_dot_json }),
        ),
        AuthMode::AgentIdentity => None,
    }
}

// ---------------------------------------------------------------------------
// Externally supplied tokens
// ---------------------------------------------------------------------------

#[derive(Clone, Debug, PartialEq, Eq)]
pub struct ExternalAuthChatgptMetadata {
    pub account_id: String,
    pub plan_type: Option<String>,
}

#[derive(Clone, Debug, PartialEq, Eq)]
pub struct ExternalAuthTokens {
    pub access_token: String,
    pub chatgpt_metadata: Option<ExternalAuthChatgptMetadata>,
}

impl ExternalAuthTokens {
    pub fn access_token_only(access_token: String) -> (r: ExternalAuthTokens)
        ensures
            r.access_token == access_token,
            r.chatgpt_metadata is None,
    {
        ExternalAuthTokens { access_token, chatgpt_metadata: None }
    }

    pub fn chatgpt(
        access_token: String,
        chatgpt_account_id: String,
        chatgpt_plan_type: Option<String>,
    ) -> (r: ExternalAuthTokens)
        ensures
            r.access_token == access_token,
            r.chatgpt_metadata == Some(
                ExternalAuthChatgptMetadata {
                    account_id: chatgpt_account_id,
                    plan_type: chatgpt_plan_type,
                },
            ),
    {
        ExternalAuthTokens {
            access_token,
            chatgpt_metadata: Some(
                ExternalAuthChatgptMetadata {
                    account_id: chatgpt_account_id,
                    plan_type: chatgpt_plan_type,
                },
            ),
        }
    }

    pub fn chatgpt_metadata(&self) -> (r: Option<&ExternalAuthChatgptMetadata>)
        ensures
            match self.chatgpt_metadata {
                Some(m) => r == Some(&m),
                None => r is None,
            },
    {
        match &self.chatgpt_metadata {
            Some(m) => Some(m),
            None => None,
        }
    }
}

#[derive(Clone, Copy, Debug, PartialEq, Eq, Structural)]
pub enum ExternalAuthRefreshReason {
    Unauthorized,
}

#[derive(Clone, Debug, PartialEq, Eq)]
pub struct ExternalAuthRefreshContext {
    pub reason: ExternalAuthRefreshReason,
    pub previous_account_id: Option<String>,
}

/// The credentials made from externally supplied tokens: an API key, or
/// external ChatGPT tokens (with the account and plan, where given); agent
/// identities are not supplied this way.
pub open spec fn auth_from_external_is(r: Option<CodexAuth>, mode: AuthMode, tokens: ExternalAuthTokens) -> bool {
    match mode {
        AuthMode::ApiKey => r matches Some(CodexAuth::ApiKey(k)) && k.api_key@ == tokens.access_token@,
        AuthMode::AgentIdentity => r is None,
        _ => r matches Some(CodexAuth::ChatgptAuthTokens(c)) && external_auth_json_is(
            c.auth_dot_json,
            tokens.access_token@,
            match tokens.chatgpt_metadata {
                Some(m) => m.account_id@,
                None => Seq::empty(),
            },
            match tokens.chatgpt_metadata {
                Some(m) => opt_view(m.plan_type),
                None => None,
            },
        ),
    }
}

pub fn codex_auth_from_external_tokens(auth_mode: AuthMode, tokens: &ExternalAuthTokens) -> (r: Option<CodexAuth>)
    ensures
        auth_from_external_is(r, auth_mode, *tokens),
{
    match auth_mode {
        AuthMode::ApiKey => Some(CodexAuth::from_api_key(tokens.access_token.as_str())),
        AuthMode::AgentIdentity => None,
        _ => {
            let (account_id, plan_type): (&str, Option<&str>) = match &tokens.chatgpt_metadata {
                Some(m) => (
                    m.account_id.as_str(),
                    match &m.plan_type {
                        Some(p) => Some(p.as_str()),
                        None => None,
                    },
                ),
                None => {
                    proof {
                        reveal_strlit("");
                        assert(""@ =~= Seq::<char>::empty());
                    }
                    ("", None)
                },
            };
            assert(account_id@ == match tokens.chatgpt_metadata {
                Some(m) => m.account_id@,
                None => Seq::<char>::empty(),
            });
            assert(match plan_type {
                Some(p) => Some(p@),
                None => None,
            } == match tokens.chatgpt_metadata {
                Some(m) => opt_view(m.plan_type),
                None => None,
            });
            match AuthDotJson::from_external_access_token(tokens.access_token.as_str(), account_id, plan_type) {
                Ok(auth_dot_json) => Some(CodexAuth::ChatgptAuthTokens(ChatgptAuthTokens { auth_dot_json })),
                Err(_) => None,
            }
        },
    }
}

// ---------------------------------------------------------------------------
// Recovering from an unauthorized answer
// ---------------------------------------------------------------------------

/// The recovery after a 401: the browser build's only source is the host's
/// external auth, which gets one refresh attempt.
pub struct UnauthorizedRecovery {
    has_external_auth: bool,
    done: bool,
}

pub struct UnauthorizedRecoveryStepResult {
    auth_state_changed: Option<bool>,
}

impl UnauthorizedRecoveryStepResult {
    pub closed spec fn changed(&self) -> Option<bool> {
        self.auth_state_changed
    }

    pub fn auth_state_changed(&self) -> (r: Option<bool>)
        ensures
            r == self.changed(),
    {
        self.auth_state_changed
    }
}

impl UnauthorizedRecovery {
    pub closed spec fn external(&self) -> bool {
        self.has_external_auth
    }

    pub closed spec fn is_done(&self) -> bool {
        self.done
    }

    /// A recovery that has made no attempt yet.
    pub fn new(has_external_auth: bool) -> (r: UnauthorizedRecovery)
        ensures
            r.external() == has_external_auth,
            !r.is_done(),
    {
        UnauthorizedRecovery { has_external_auth, done: false }
    }

    pub fn has_next(&self) -> (r: bool)
        ensures
            r == (!self.is_done() && self.external()),
    {
        !self.done && self.has_external_auth
    }

    pub fn unavailable_reason(&self) -> (r: &'static str)
        ensures
            r@ == (if !self.external() {
                "no_external_auth"@
            } else if self.is_done() {
                "recovery_exhausted"@
            } else {
                "ready"@
            }),
    {
        if !self.has_external_auth {
            return "no_external_auth";
        }
        if self.done {
            return "recovery_exhausted";
        }
        "ready"
    }

    pub fn mode_name(&self) -> (r: &'static str)
        ensures
            r@ == "external"@,
    {
        "external"
    }

    pub fn step_name(&self) -> (r: &'static str)
        ensures
            r@ == (if self.is_done() {
                "done"@
            } else {
                "external_refresh"@
            }),
    {
        if self.done {
            "done"
        } else {
            "external_refresh"
        }
    }

    /// Takes the next step: refused when none is left, else the one attempt
    /// is used up and the host is to refresh the external auth.
    pub fn begin_next(&mut self) -> (r: Result<(), String>)
        ensures
            (!old(self).is_done() && old(self).external()) ==> r is Ok && final(self).is_done()
                && final(self).external() == old(self).external(),
            !(!old(self).is_done() && old(self).external()) ==> (r matches Err(m) && m@
                == "No more recovery steps available."@) && *final(self) == *old(self),
    {
        if !self.has_next() {
            return Err(owned("No more recovery steps available."));
        }
        self.done = true;
        Ok(())
    }

    /// Whether a step is left: the one attempt is unused and there is
    /// external auth to refresh.
    pub open spec fn has_next_spec(&self) -> bool {
        !self.is_done() && self.external()
    }

    /// The step's result from the outcome of the host's refresh.
    pub fn finish_next(refresh: Result<(), String>) -> (r: Result<UnauthorizedRecoveryStepResult, String>)
        ensures
            match refresh {
                Ok(()) => r matches Ok(s) && s.changed() == Some(true),
                Err(m) => r == Err::<UnauthorizedRecoveryStepResult, String>(m),
            },
    {
        match refresh {
            Ok(()) => Ok(UnauthorizedRecoveryStepResult { auth_state_changed: Some(true) }),
            Err(m) => Err(m),
        }
    }
}

/// A recovery makes at most one refresh attempt: once a step was taken, no
/// further step is offered.
pub proof fn law_recovery_single_attempt(before: UnauthorizedRecovery, after: UnauthorizedRecovery)
    requires
        after.is_done(),
    ensures
        !after.has_next_spec(),
{
}

// ---------------------------------------------------------------------------
// Credentials from the environment
// ---------------------------------------------------------------------------

/// The trimmed value of `key`, where it is set and not blank.
pub open spec fn non_empty_env_spec(env: Seq<(Seq<char>, Seq<char>)>, key: Seq<char>) -> Option<Seq<char>> {
    match env_lookup(env, key) {
        Some(v) => if trim_seq(v).len() > 0 {
            Some(trim_seq(v))
        } else {
            None
        },
        None => None,
    }
}

pub fn read_non_empty_env_var(env: &Vec<(String, String)>, key: &str) -> (r: Option<String>)
    ensures
        opt_view(r) == non_empty_env_spec(env_view(env@), key@),
{
    match env_value(env, key) {
        Some(v) => {
            let t = trim(v.as_str());
            if t.unicode_len() > 0 {
                Some(owned(t))
            } else {
                None
            }
        },
        None => None,
    }
}

pub fn read_openai_api_key_from_env(env: &Vec<(String, String)>) -> (r: Option<String>)
    ensures
        opt_view(r) == non_empty_env_spec(env_view(env@), "OPENAI_API_KEY"@),
{
    read_non_empty_env_var(env, "OPENAI_API_KEY")
}

pub fn read_codex_api_key_from_env(env: &Vec<(String, String)>) -> (r: Option<String>)
    ensures
        opt_view(r) == non_empty_env_spec(env_view(env@), "CODEX_API_KEY"@),
{
    read_non_empty_env_var(env, "CODEX_API_KEY")
}

pub fn read_codex_access_token_from_env(env: &Vec<(String, String)>) -> (r: Option<String>)
    ensures
        opt_view(r) == non_empty_env_spec(env_view(env@), "CODEX_ACCESS_TOKEN"@),
{
    read_non_empty_env_var(env, "CODEX_ACCESS_TOKEN")
}

// ---------------------------------------------------------------------------
// The originator of requests
// ---------------------------------------------------------------------------

/// The browser build keeps the default originator.
pub fn set_default_originator(value: String) -> (r: Result<(), String>)
    ensures
        r is Ok,
{
    Ok(())
}

pub open spec fn first_party_spec(o: Seq<char>) -> bool {
    o == "codex_cli_rs"@ || o == "codex_cli_rs_wasm"@
}

pub fn is_first_party_originator(originator_value: &str) -> (r: bool)
    ensures
        r == first_party_spec(originator_value@),
{
    str_eq(originator_value, "codex_cli_rs") || str_eq(originator_value, "codex_cli_rs_wasm")
}

pub fn is_first_party_chat_originator(originator_value: &str) -> (r: bool)
    ensures
        r == first_party_spec(originator_value@),
{
    is_first_party_originator(originator_value)
}

/// The originator name and the header value sent with it.
#[derive(Debug, Clone)]
pub struct Originator {
    pub value: String,
    pub header_value: String,
}

/// The browser build always sends the default originator `codex_cli_rs`.
pub fn originator() -> (r: Originator)
    ensures
        r.value@ == "codex_cli_rs"@,
        r.header_value@ == "codex_cli_rs"@,
{
    Originator { value: owned("codex_cli_rs"), header_value: owned("codex_cli_rs") }
}

/// The user agent: `codex_cli_rs/` and the package version.
pub fn get_codex_user_agent(package_version: &str) -> (r: String)
    ensures
        r@ == "codex_cli_rs/"@ + package_version@,
{
    crate::browser_cli::cat2("codex_cli_rs/", package_version)
}

/// A byte `http` accepts in a header value: visible ASCII, anything from
/// 0x80 up, or a tab.
pub open spec fn header_byte_ok(b: u8) -> bool {
    (b >= 32 && b != 127) || b == 9
}

pub open spec fn header_value_ok(s: Seq<char>) -> bool {
    forall|i: int|
        0 <= i < vstd::utf8::encode_utf8(s).len() ==> header_byte_ok(
            #[trigger] vstd::utf8::encode_utf8(s)[i],
        )
}

/// `http::HeaderValue::from_str`: it accepts the text exactly when every
/// byte of its UTF-8 form is a tab, visible ASCII or at least 0x80 (the
/// crate's `is_valid` test on each byte).
#[verifier::external_body]
pub(crate) fn header_value_accepts(s: &str) -> (r: bool)
    ensures
        r == header_value_ok(s@),
{
    http::HeaderValue::from_str(s).is_ok()
}

/// The default request headers: the user agent, or `codex_cli_rs` where the
/// user agent is not a valid header value.
pub fn default_headers(package_version: &str) -> (r: Vec<(String, String)>)
    ensures
        r@.len() == 1,
        r@[0].0@ == "user-agent"@,
        r@[0].1@ == if header_value_ok("codex_cli_rs/"@ + package_version@) {
            "codex_cli_rs/"@ + package_version@
        } else {
            "codex_cli_rs"@
        },
{
    let agent = get_codex_user_agent(package_version);
    let value = if header_value_accepts(agent.as_str()) {
        agent
    } else {
        owned("codex_cli_rs")
    };
    let mut headers: Vec<(String, String)> = Vec::new();
    headers.push((owned("user-agent"), value));
    headers
}

impl Default for IdTokenInfo {
    fn default() -> (r: IdTokenInfo)
        ensures
            r.email is None,
            r.chatgpt_plan_type is None,
            r.chatgpt_user_id is None,
            r.chatgpt_account_id is None,
            !r.chatgpt_account_is_fedramp,
            r.raw_jwt@ == Seq::<char>::empty(),
    {
        IdTokenInfo {
            email: None,
            chatgpt_plan_type: None,
            chatgpt_user_id: None,
            chatgpt_account_id: None,
            chatgpt_account_is_fedramp: false,
            raw_jwt: String::new(),
        }
    }
}

pub open spec fn dummy_json_is(a: AuthDotJson) -> bool {
    &&& a.auth_mode == Some(AuthMode::Chatgpt)
    &&& a.openai_api_key is None
    &&& a.agent_identity is None
    &&& a.last_refresh is Some
    &&& a.tokens matches Some(t) && t.access_token@ == "Access Token"@ && t.refresh_token@
        == "test"@ && opt_view(t.account_id) == Some("account_id"@)
        && t.id_token.chatgpt_account_id is None
}

/// ChatGPT credentials for tests: access token `Access Token`, refresh token
/// `test`, account `account_id`, default claims, refreshed now.
pub fn create_dummy_chatgpt_auth_for_testing() -> (r: CodexAuth)
    ensures
        r matches CodexAuth::Chatgpt(c) && dummy_json_is(c.auth_dot_json),
{
    let now = now_millis();
    let auth_dot_json = AuthDotJson {
        auth_mode: Some(AuthMode::Chatgpt),
        openai_api_key: None,
        tokens: Some(
            TokenData {
                id_token: IdTokenInfo::default(),
                access_token: owned("Access Token"),
                refresh_token: owned("test"),
                account_id: Some(owned("account_id")),
            },
        ),
        last_refresh: Some(now),
        agent_identity: None,
    };
    CodexAuth::Chatgpt(ChatgptAuth { auth_dot_json })
}

// ---------------------------------------------------------------------------
// Agent identity
// ---------------------------------------------------------------------------

#[derive(Clone, Debug)]
pub enum AgentIdentityAuthError {
    BootstrapUnavailable { operation: String, attempts: usize, message: String },
}

impl AgentIdentityAuthError {
    pub fn message(&self) -> (r: String)
        ensures
            match self {
                AgentIdentityAuthError::BootstrapUnavailable { operation, attempts, message } =>
                    r@ == "agent identity bootstrap unavailable after "@ + crate::text::decimal_seq(
                    *attempts as nat) + " attempts during "@ + operation@ + ": "@ + message@,
            },
    {
        match self {
            AgentIdentityAuthError::BootstrapUnavailable { operation, attempts, message } => {
                let n = crate::text::u64_to_decimal(*attempts as u64);
                let mut m = cat3("agent identity bootstrap unavailable after ", n.as_str(), " attempts during ");
                m.append(operation.as_str());
                m.append(": ");
                m.append(message.as_str());
                m
            },
        }
    }
}

/// A bootstrap attempt is made at most this many times.
pub open spec fn max_bootstrap_attempts() -> int {
    3
}

/// A failed bootstrap step as reported: a retryable registration failure
/// becomes "bootstrap unavailable" after the maximum number of attempts,
/// naming the operation and the failure's message; any other failure is
/// passed on as it is (`Err`).
pub fn classify_bootstrap_error(operation: &str, retryable: bool, message: String) -> (r: Result<
    AgentIdentityAuthError,
    String,
>)
    ensures
        retryable ==> (r matches Ok(AgentIdentityAuthError::BootstrapUnavailable { operation: o, attempts, message: m })
            && o@ == operation@ && attempts == max_bootstrap_attempts() && m@ == message@),
        !retryable ==> (r matches Err(m) && m@ == message@),
{
    if retryable {
        Ok(AgentIdentityAuthError::BootstrapUnavailable { operation: owned(operation), attempts: 3, message })
    } else {
        Err(message)
    }
}

/// Verifying an agent identity JWT needs native crypto the browser lacks.
pub fn agent_identity_record_from_jwt(jwt: &str) -> (r: Result<AgentIdentityAuthRecord, String>)
    ensures
        r matches Err(m) && m@ == "agent identity JWT verification is unavailable in the browser runtime"@,
{
    Err(owned("agent identity JWT verification is unavailable in the browser runtime"))
}

/// Registering a managed agent identity is unavailable in the browser.
pub fn register_managed_chatgpt_agent_identity(binding: &ManagedChatGptAgentIdentityBinding) -> (r: Result<
    AgentIdentityAuth,
    String,
>)
    ensures
        r matches Err(m) && m@ == "managed agent identity registration is unavailable in the browser runtime"@,
{
    Err(owned("managed agent identity registration is unavailable in the browser runtime"))
}

/// Where `auth.json` lives under a Codex home.
pub fn get_auth_file(codex_home: &str) -> (r: String)
    ensures
        r@ == crate::state::join_path_spec(codex_home@, "auth.json"@),
{
    crate::state::join_path(codex_home, "auth.json")
}

pub open spec fn production_base(u: Seq<char>) -> bool {
    ||| u == "https://chatgpt.com"@
    ||| u == "https://chatgpt.com/backend-api"@
    ||| u == "https://chatgpt.com/codex"@
    ||| u == "https://chatgpt.com/backend-api/codex"@
    ||| u == "https://chat.openai.com"@
    ||| u == "https://chat.openai.com/backend-api"@
    ||| u == "https://chat.openai.com/codex"@
    ||| u == "https://chat.openai.com/backend-api/codex"@
}

pub open spec fn staging_base(u: Seq<char>) -> bool {
    ||| u == "https://chatgpt-staging.com"@
    ||| u == "https://chatgpt-staging.com/backend-api"@
    ||| u == "https://chatgpt-staging.com/codex"@
    ||| u == "https://chatgpt-staging.com/backend-api/codex"@
}

pub open spec fn unsupported_environment() -> Seq<char> {
    "Agent Identity only supports production and staging ChatGPT environments"@
}

/// The accounts API that agent identities use for a ChatGPT base URL
/// (trailing slashes ignored; the production backend where none is given).
pub open spec fn authapi_base_spec(chatgpt_base_url: Option<Seq<char>>) -> Result<Seq<char>, Seq<char>> {
    let base = match chatgpt_base_url {
        Some(u) => u,
        None => "https://chatgpt.com/backend-api"@,
    };
    let b = trim_end_char(base, '/');
    if production_base(b) {
        Ok("https://auth.openai.com/api/accounts"@)
    } else if staging_base(b) {
        Ok("https://auth.api.openai.org/api/accounts"@)
    } else {
        Err(unsupported_environment())
    }
}

/// `str::trim_end_matches` with a character.
fn trim_end_matches_char<'a>(s: &'a str, c: char) -> (r: &'a str)
    ensures
        r@ == trim_end_char(s@, c),
{
    let n = s.unicode_len();
    let mut b: usize = n;
    assert(s@.subrange(0, n as int) =~= s@);
    while b > 0
        invariant
            n == s@.len(),
            b <= n,
            trim_end_char(s@, c) == trim_end_char(s@.subrange(0, b as int), c),
        ensures
            b == 0 || s@[b - 1] != c,
        decreases b,
    {
        if s.get_char(b - 1) != c {
            break;
        }
        assert(s@.subrange(0, b as int).drop_last() =~= s@.subrange(0, b - 1));
        b = b - 1;
    }
    let r = s.substring_char(0, b);
    assert(trim_end_char(s@.subrange(0, b as int), c) == r@) by {
        if b > 0 {
            assert(r@.last() == s@[b - 1]);
        }
    }
    r
}

pub fn agent_identity_authapi_base_url(chatgpt_base_url: Option<&str>) -> (r: Result<String, String>)
    ensures
        match r {
            Ok(u) => authapi_base_spec(match chatgpt_base_url {
                Some(u) => Some(u@),
                None => None,
            }) == Ok::<Seq<char>, Seq<char>>(u@),
            Err(m) => authapi_base_spec(match chatgpt_base_url {
                Some(u) => Some(u@),
                None => None,
            }) == Err::<Seq<char>, Seq<char>>(m@),
        },
{
    let base: &str = match chatgpt_base_url {
        Some(u) => u,
        None => "https://chatgpt.com/backend-api",
    };
    let b = trim_end_matches_char(base, '/');
    if str_eq(b, "https://chatgpt.com") || str_eq(b, "https://chatgpt.com/backend-api") || str_eq(
        b,
        "https://chatgpt.com/codex",
    ) || str_eq(b, "https://chatgpt.com/backend-api/codex") || str_eq(b, "https://chat.openai.com")
        || str_eq(b, "https://chat.openai.com/backend-api") || str_eq(
        b,
        "https://chat.openai.com/codex",
    ) || str_eq(b, "https://chat.openai.com/backend-api/codex") {
        Ok(owned("https://auth.openai.com/api/accounts"))
    } else if str_eq(b, "https://chatgpt-staging.com") || str_eq(
        b,
        "https://chatgpt-staging.com/backend-api",
    ) || str_eq(b, "https://chatgpt-staging.com/codex") || str_eq(
        b,
        "https://chatgpt-staging.com/backend-api/codex",
    ) {
        Ok(owned("https://auth.api.openai.org/api/accounts"))
    } else {
        Err(owned("Agent Identity only supports production and staging ChatGPT environments"))
    }
}

pub fn require_agent_identity_authapi_base_url(url: Option<&str>) -> (r: Result<&str, String>)
    ensures
        match url {
            Some(u) => r == Ok::<&str, String>(u),
            None => r matches Err(m) && m@ == unsupported_environment(),
        },
{
    match url {
        Some(u) => Ok(u),
        None => Err(owned("Agent Identity only supports production and staging ChatGPT environments")),
    }
}

/// A record needs a task registered when it has no task id, or a blank one.
pub fn record_needs_task_registration(record: &AgentIdentityAuthRecord) -> (r: bool)
    ensures
        r == match record.task_id {
            Some(t) => trim_seq(t@).len() == 0,
            None => true,
        },
{
    match &record.task_id {
        Some(t) => trim(t.as_str()).unicode_len() == 0,
        None => true,
    }
}


// ---------------------------------------------------------------------------
// Loading credentials
// ---------------------------------------------------------------------------

/// The `auth.json` of an access token taken from the environment: ChatGPT
/// tokens whose ID-token claims are `claims` (what the token's JWT carries,
/// or the defaults when it carries none), with the account id those claims
/// name, no refresh token, and the current time as last refresh.
pub open spec fn access_token_json_is(a: AuthDotJson, access_token: Seq<char>, claims: IdTokenInfo) -> bool {
    &&& a.auth_mode == Some(AuthMode::ChatgptAuthTokens)
    &&& a.openai_api_key is None
    &&& a.agent_identity is None
    &&& a.last_refresh is Some
    &&& a.tokens matches Some(t) && t.id_token == claims && t.access_token@ == access_token
        && t.refresh_token@ == Seq::<char>::empty() && opt_view(t.account_id) == opt_view(
        claims.chatgpt_account_id,
    )
}

pub fn auth_dot_json_from_access_token(access_token: &str, claims: IdTokenInfo) -> (r: AuthDotJson)
    ensures
        access_token_json_is(r, access_token@, claims),
{
    let account_id = clone_opt_string(&claims.chatgpt_account_id);
    let now = now_millis();
    AuthDotJson {
        auth_mode: Some(AuthMode::ChatgptAuthTokens),
        openai_api_key: None,
        tokens: Some(
            TokenData {
                id_token: claims,
                access_token: owned(access_token),
                refresh_token: String::new(),
                account_id,
            },
        ),
        last_refresh: Some(now),
        agent_identity: None,
    }
}

/// The `auth.json` the environment stands for: an API key (`OPENAI_API_KEY`,
/// else `CODEX_API_KEY`), else the access token in `CODEX_ACCESS_TOKEN`
/// with its claims `claims`, else none.
pub open spec fn env_auth_json_is(r: Option<AuthDotJson>, env: Seq<(Seq<char>, Seq<char>)>, claims: IdTokenInfo) -> bool {
    let key = match non_empty_env_spec(env, "OPENAI_API_KEY"@) {
        Some(k) => Some(k),
        None => non_empty_env_spec(env, "CODEX_API_KEY"@),
    };
    match key {
        Some(k) => r matches Some(a) && a.auth_mode == Some(AuthMode::ApiKey) && opt_view(
            a.openai_api_key,
        ) == Some(k) && a.tokens is None && a.last_refresh is None && a.agent_identity is None,
        None => match non_empty_env_spec(env, "CODEX_ACCESS_TOKEN"@) {
            Some(t) => r matches Some(a) && access_token_json_is(a, t, claims),
            None => r is None,
        },
    }
}

pub fn auth_dot_json_from_env(env: &Vec<(String, String)>, claims: IdTokenInfo) -> (r: Option<
    AuthDotJson,
>)
    ensures
        env_auth_json_is(r, env_view(env@), claims),
{
    let key = match read_openai_api_key_from_env(env) {
        Some(k) => Some(k),
        None => read_codex_api_key_from_env(env),
    };
    if let Some(api_key) = key {
        return Some(
            AuthDotJson {
                auth_mode: Some(AuthMode::ApiKey),
                openai_api_key: Some(api_key),
                tokens: None,
                last_refresh: None,
                agent_identity: None,
            },
        );
    }
    match read_codex_access_token_from_env(env) {
        Some(t) => Some(auth_dot_json_from_access_token(t.as_str(), claims)),
        None => None,
    }
}

/// The browser keeps no `auth.json`: what is "stored" is what the
/// environment holds.
pub fn load_auth_dot_json(env: &Vec<(String, String)>, claims: IdTokenInfo) -> (r: Result<
    Option<AuthDotJson>,
    String,
>)
    ensures
        r matches Ok(a) && env_auth_json_is(a, env_view(env@), claims),
{
    Ok(auth_dot_json_from_env(env, claims))
}

/// The credentials a session starts with: `CODEX_API_KEY` when that
/// variable is enabled, else `OPENAI_API_KEY`, else the ChatGPT tokens of
/// `CODEX_ACCESS_TOKEN` (with its claims `claims`), else what the stored
/// `auth.json` stands for.
pub open spec fn load_auth_is(
    r: Option<CodexAuth>,
    env: Seq<(Seq<char>, Seq<char>)>,
    enable_codex_api_key_env: bool,
    claims: IdTokenInfo,
) -> bool {
    let codex_key = non_empty_env_spec(env, "CODEX_API_KEY"@);
    let openai_key = non_empty_env_spec(env, "OPENAI_API_KEY"@);
    let token = non_empty_env_spec(env, "CODEX_ACCESS_TOKEN"@);
    if enable_codex_api_key_env && codex_key is Some {
        r matches Some(CodexAuth::ApiKey(k)) && Some(k.api_key@) == codex_key
    } else if openai_key is Some {
        r matches Some(CodexAuth::ApiKey(k)) && Some(k.api_key@) == openai_key
    } else if token is Some {
        r matches Some(CodexAuth::ChatgptAuthTokens(t)) && access_token_json_is(
            t.auth_dot_json,
            token->0,
            claims,
        )
    } else {
        exists|a: Option<AuthDotJson>|
            env_auth_json_is(a, env, claims) && match a {
                Some(j) => auth_from_json_is(r, j),
                None => r is None,
            }
    }
}

pub fn load_auth(env: &Vec<(String, String)>, enable_codex_api_key_env: bool, claims: IdTokenInfo) -> (r: Result<
    Option<CodexAuth>,
    String,
>)
    ensures
        r matches Ok(a) && load_auth_is(a, env_view(env@), enable_codex_api_key_env, claims),
{
    if enable_codex_api_key_env {
        if let Some(api_key) = read_codex_api_key_from_env(env) {
            return Ok(Some(CodexAuth::from_api_key(api_key.as_str())));
        }
    }
    if let Some(api_key) = read_openai_api_key_from_env(env) {
        return Ok(Some(CodexAuth::from_api_key(api_key.as_str())));
    }
    if let Some(access_token) = read_codex_access_token_from_env(env) {
        let auth_dot_json = auth_dot_json_from_access_token(access_token.as_str(), claims);
        return Ok(Some(CodexAuth::ChatgptAuthTokens(ChatgptAuthTokens { auth_dot_json })));
    }
    match load_auth_dot_json(env, claims) {
        Ok(stored) => {
            let ghost g = stored;
            let r = match stored {
                Some(a) => codex_auth_from_auth_dot_json(a),
                None => None,
            };
            assert(env_auth_json_is(g, env_view(env@), claims) && match g {
                Some(j) => auth_from_json_is(r, j),
                None => r is None,
            });
            Ok(r)
        },
        Err(e) => Err(e),
    }
}

// ---------------------------------------------------------------------------
// Saving and removing credentials
// ---------------------------------------------------------------------------

/// Saving an API key needs storage the browser does not have.
pub fn login_with_api_key(codex_home: &str, api_key: &str, mode: AuthCredentialsStoreMode) -> (r:
    Result<(), String>)
    ensures
        r matches Err(m) && m@ == "saving API key auth needs a browser auth storage host shim"@,
{
    Err(owned("saving API key auth needs a browser auth storage host shim"))
}

/// Saving an access token needs storage the browser does not have.
pub fn login_with_access_token(
    codex_home: &str,
    access_token: &str,
    mode: AuthCredentialsStoreMode,
    chatgpt_base_url: Option<&str>,
) -> (r: Result<(), String>)
    ensures
        r matches Err(m) && m@ == "saving access token auth needs a browser auth storage host shim"@,
{
    Err(owned("saving access token auth needs a browser auth storage host shim"))
}

/// Saving an `auth.json` needs storage the browser does not have.
pub fn save_auth(codex_home: &str, auth: &AuthDotJson, mode: AuthCredentialsStoreMode) -> (r: Result<
    (),
    String,
>)
    ensures
        r matches Err(m) && m@ == "saving auth needs a browser auth storage host shim"@,
{
    Err(owned("saving auth needs a browser auth storage host shim"))
}

/// Nothing is stored, so logging out removes nothing.
pub fn logout(codex_home: &str, mode: AuthCredentialsStoreMode) -> (r: Result<bool, String>)
    ensures
        r == Ok::<bool, String>(false),
{
    Ok(false)
}

/// Login restrictions are not enforced in the browser.
pub fn enforce_login_restrictions() -> (r: Result<(), String>)
    ensures
        r is Ok,
{
    Ok(())
}

// ---------------------------------------------------------------------------
// Refresh errors
// ---------------------------------------------------------------------------

#[derive(Debug, Clone, Copy, PartialEq, Eq, Structural)]
pub enum RefreshTokenFailedReason {
    Expired,
    Exhausted,
    Revoked,
    Other,
}

#[derive(Debug, Clone)]
pub struct RefreshTokenFailedError {
    pub reason: RefreshTokenFailedReason,
    pub message: String,
}

/// A refresh failed for good (`Permanent`) or may work later (`Transient`,
/// with the I/O failure's message).
#[derive(Debug, Clone)]
pub enum RefreshTokenError {
    Permanent(RefreshTokenFailedError),
    Transient(String),
}

impl RefreshTokenError {
    pub fn failed_reason(&self) -> (r: Option<RefreshTokenFailedReason>)
        ensures
            r == match *self {
                RefreshTokenError::Permanent(e) => Some(e.reason),
                RefreshTokenError::Transient(_) => None,
            },
    {
        match self {
            RefreshTokenError::Permanent(e) => Some(e.reason),
            RefreshTokenError::Transient(_) => None,
        }
    }
}

// ---------------------------------------------------------------------------
// The auth manager's state
// ---------------------------------------------------------------------------

/// What the auth manager holds: the cached credentials with a revision that
/// counts their changes, the configuration it loads with, the forced
/// workspace ids, and whether the host supplies external auth.
pub struct AuthManager {
    codex_home: String,
    cached: Option<CodexAuth>,
    revision: u64,
    enable_codex_api_key_env: bool,
    auth_credentials_store_mode: AuthCredentialsStoreMode,
    forced_chatgpt_workspace_id: Option<Vec<String>>,
    chatgpt_base_url: Option<String>,
    has_external_auth: bool,
}

/// Credentials count as the same when their API auth modes agree (the
/// equality the manager uses to notice a change).
pub open spec fn same_auth(a: Option<CodexAuth>, b: Option<CodexAuth>) -> bool {
    match (a, b) {
        (None, None) => true,
        (Some(x), Some(y)) => auth_mode_of(x) == auth_mode_of(y),
        _ => false,
    }
}

impl AuthManager {
    pub closed spec fn cached_spec(&self) -> Option<CodexAuth> {
        self.cached
    }

    pub closed spec fn revision_spec(&self) -> u64 {
        self.revision
    }

    pub closed spec fn external_spec(&self) -> bool {
        self.has_external_auth
    }

    pub closed spec fn api_key_env_spec(&self) -> bool {
        self.enable_codex_api_key_env
    }

    pub closed spec fn store_mode_spec(&self) -> AuthCredentialsStoreMode {
        self.auth_credentials_store_mode
    }

    pub closed spec fn codex_home_spec(&self) -> Seq<char> {
        self.codex_home@
    }

    pub closed spec fn workspace_ids_spec(&self) -> Option<Seq<Seq<char>>> {
        match self.forced_chatgpt_workspace_id {
            Some(v) => Some(crate::text::string_views(v@)),
            None => None,
        }
    }

    /// A manager holding the credentials `loaded` (what `load_auth` found),
    /// at revision 0, with no external auth and no forced workspace.
    pub fn new(
        codex_home: String,
        enable_codex_api_key_env: bool,
        auth_credentials_store_mode: AuthCredentialsStoreMode,
        chatgpt_base_url: Option<String>,
        loaded: Option<CodexAuth>,
    ) -> (r: Self)
        ensures
            r.cached_spec() == loaded,
            r.revision_spec() == 0,
            !r.external_spec(),
            r.api_key_env_spec() == enable_codex_api_key_env,
            r.store_mode_spec() == auth_credentials_store_mode,
            r.codex_home_spec() == codex_home@,
            r.workspace_ids_spec() is None,
    {
        AuthManager {
            codex_home,
            cached: loaded,
            revision: 0,
            enable_codex_api_key_env,
            auth_credentials_store_mode,
            forced_chatgpt_workspace_id: None,
            chatgpt_base_url,
            has_external_auth: false,
        }
    }

    /// A manager for tests that holds `auth`, under the home `non-existent`.
    pub fn from_auth_for_testing(auth: CodexAuth) -> (r: Self)
        ensures
            r.cached_spec() == Some(auth),
            r.revision_spec() == 0,
            !r.api_key_env_spec(),
            r.store_mode_spec() == AuthCredentialsStoreMode::File,
            r.codex_home_spec() == "non-existent"@,
    {
        Self::from_auth_for_testing_with_home(auth, owned("non-existent"))
    }

    pub fn from_auth_for_testing_with_home(auth: CodexAuth, codex_home: String) -> (r: Self)
        ensures
            r.cached_spec() == Some(auth),
            r.revision_spec() == 0,
            !r.external_spec(),
            !r.api_key_env_spec(),
            r.store_mode_spec() == AuthCredentialsStoreMode::File,
            r.codex_home_spec() == codex_home@,
            r.workspace_ids_spec() is None,
    {
        AuthManager {
            codex_home,
            cached: Some(auth),
            revision: 0,
            enable_codex_api_key_env: false,
            auth_credentials_store_mode: AuthCredentialsStoreMode::File,
            forced_chatgpt_workspace_id: None,
            chatgpt_base_url: None,
            has_external_auth: false,
        }
    }

    /// A manager whose only credentials will come from the host.
    pub fn external_bearer_only() -> (r: Self)
        ensures
            r.cached_spec() is None,
            r.revision_spec() == 0,
            !r.external_spec(),
            r.codex_home_spec() == "non-existent"@,
    {
        AuthManager {
            codex_home: owned("non-existent"),
            cached: None,
            revision: 0,
            enable_codex_api_key_env: false,
            auth_credentials_store_mode: AuthCredentialsStoreMode::File,
            forced_chatgpt_workspace_id: None,
            chatgpt_base_url: None,
            has_external_auth: false,
        }
    }

    pub fn auth_cached(&self) -> (r: Option<&CodexAuth>)
        ensures
            match r {
                Some(a) => self.cached_spec() == Some(*a),
                None => self.cached_spec() is None,
            },
    {
        match &self.cached {
            Some(a) => Some(a),
            None => None,
        }
    }

    pub fn revision(&self) -> (r: u64)
        ensures
            r == self.revision_spec(),
    {
        self.revision
    }

    /// Replaces the cached credentials; when they differ (by API auth mode)
    /// from the old ones the revision goes up by one. Returns whether they
    /// differed.
    pub fn set_cached_auth(&mut self, new_auth: Option<CodexAuth>) -> (r: bool)
        requires
            old(self).revision_spec() < u64::MAX,
        ensures
            r == !same_auth(old(self).cached_spec(), new_auth),
            final(self).cached_spec() == new_auth,
            final(self).revision_spec() == if r {
                old(self).revision_spec() + 1
            } else {
                old(self).revision_spec() as int
            },
            final(self).external_spec() == old(self).external_spec(),
            final(self).api_key_env_spec() == old(self).api_key_env_spec(),
            final(self).store_mode_spec() == old(self).store_mode_spec(),
            final(self).codex_home_spec() == old(self).codex_home_spec(),
            final(self).workspace_ids_spec() == old(self).workspace_ids_spec(),
    {
        let changed = match (&self.cached, &new_auth) {
            (None, None) => false,
            (Some(x), Some(y)) => x.api_auth_mode() != y.api_auth_mode(),
            _ => true,
        };
        self.cached = new_auth;
        if changed {
            self.revision = self.revision + 1;
        }
        changed
    }

    pub fn set_external_auth(&mut self)
        ensures
            final(self).external_spec(),
            final(self).cached_spec() == old(self).cached_spec(),
            final(self).revision_spec() == old(self).revision_spec(),
    {
        self.has_external_auth = true;
    }

    pub fn clear_external_auth(&mut self)
        ensures
            !final(self).external_spec(),
            final(self).cached_spec() == old(self).cached_spec(),
            final(self).revision_spec() == old(self).revision_spec(),
    {
        self.has_external_auth = false;
    }

    pub fn has_external_auth(&self) -> (r: bool)
        ensures
            r == self.external_spec(),
    {
        self.has_external_auth
    }

    pub fn set_forced_chatgpt_workspace_id(&mut self, workspace_id: Option<Vec<String>>)
        ensures
            final(self).workspace_ids_spec() == match workspace_id {
                Some(v) => Some(crate::text::string_views(v@)),
                None => None,
            },
            final(self).cached_spec() == old(self).cached_spec(),
            final(self).revision_spec() == old(self).revision_spec(),
            final(self).external_spec() == old(self).external_spec(),
    {
        self.forced_chatgpt_workspace_id = workspace_id;
    }

    pub fn forced_chatgpt_workspace_id(&self) -> (r: Option<Vec<String>>)
        ensures
            match r {
                Some(v) => self.workspace_ids_spec() == Some(crate::text::string_views(v@)),
                None => self.workspace_ids_spec() is None,
            },
    {
        match &self.forced_chatgpt_workspace_id {
            Some(v) => Some(crate::browser_cli::clone_strings(v)),
            None => None,
        }
    }

    pub fn codex_api_key_env_enabled(&self) -> (r: bool)
        ensures
            r == self.api_key_env_spec(),
    {
        self.enable_codex_api_key_env
    }

    pub fn is_external_chatgpt_auth_active(&self) -> (r: bool)
        ensures
            r == (self.cached_spec() matches Some(a) && a is ChatgptAuthTokens),
    {
        match &self.cached {
            Some(a) => a.is_external_chatgpt_tokens(),
            None => false,
        }
    }

    pub fn get_api_auth_mode(&self) -> (r: Option<AuthMode>)
        ensures
            r == match self.cached_spec() {
                Some(a) => Some(auth_mode_of(a)),
                None => None,
            },
    {
        match &self.cached {
            Some(a) => Some(a.api_auth_mode()),
            None => None,
        }
    }

    pub fn auth_mode(&self) -> (r: Option<AuthMode>)
        ensures
            r == match self.cached_spec() {
                Some(a) => Some(auth_mode_of(a)),
                None => None,
            },
    {
        match &self.cached {
            Some(a) => Some(a.auth_mode()),
            None => None,
        }
    }

    pub fn current_auth_uses_codex_backend(&self) -> (r: bool)
        ensures
            r == (self.cached_spec() matches Some(a) && auth_mode_of(a) != AuthMode::ApiKey),
    {
        match &self.cached {
            Some(a) => a.uses_codex_backend(),
            None => false,
        }
    }

    /// No refresh failure is ever remembered in the browser.
    pub fn refresh_failure_for_auth(&self, auth: &CodexAuth) -> (r: Option<RefreshTokenFailedError>)
        ensures
            r is None,
    {
        None
    }

    /// Reloads the credentials from what `load_auth` found: a failed load
    /// changes nothing; else the result is cached as by `set_cached_auth`.
    pub fn reload(&mut self, loaded: Result<Option<CodexAuth>, String>) -> (r: bool)
        requires
            old(self).revision_spec() < u64::MAX,
        ensures
            match loaded {
                Ok(a) => r == !same_auth(old(self).cached_spec(), a) && final(self).cached_spec()
                    == a,
                Err(_) => !r && (*final(self) == *old(self)),
            },
    {
        match loaded {
            Ok(a) => self.set_cached_auth(a),
            Err(_) => false,
        }
    }

    /// The first half of an external refresh: without external auth it is
    /// refused; else the host is to refresh, told the account id of the
    /// cached credentials.
    pub fn begin_external_refresh(&self, reason: ExternalAuthRefreshReason) -> (r: Result<
        ExternalAuthRefreshContext,
        RefreshTokenError,
    >)
        ensures
            !self.external_spec() ==> (r matches Err(RefreshTokenError::Transient(m)) && m@
                == "token refresh needs a browser auth host shim"@),
            self.external_spec() ==> (r matches Ok(c) && c.reason == reason && opt_view(
                c.previous_account_id,
            ) == match self.cached_spec() {
                Some(a) => match a {
                    CodexAuth::AgentIdentity(x) => Some(x.record.account_id@),
                    _ => match token_data_of(a) {
                        Some(t) => opt_view(t.account_id),
                        None => None,
                    },
                },
                None => None,
            }),
    {
        if !self.has_external_auth {
            return Err(RefreshTokenError::Transient(owned("token refresh needs a browser auth host shim")));
        }
        let previous_account_id = match &self.cached {
            Some(a) => a.get_account_id(),
            None => None,
        };
        Ok(ExternalAuthRefreshContext { reason, previous_account_id })
    }

    /// The second half of an external refresh, from the host's answer: a
    /// failure is passed on as transient; tokens that make no credentials
    /// are refused; usable ones are cached.
    pub fn finish_external_refresh(
        &mut self,
        external_mode: AuthMode,
        refreshed: Result<ExternalAuthTokens, String>,
    ) -> (r: Result<(), RefreshTokenError>)
        requires
            old(self).revision_spec() < u64::MAX,
        ensures
            match refreshed {
                Err(m) => (r matches Err(RefreshTokenError::Transient(x)) && x@ == m@)
                    && (*final(self) == *old(self)),
                Ok(tokens) => exists|a: Option<CodexAuth>|
                    auth_from_external_is(a, external_mode, tokens) && match a {
                        Some(auth) => r is Ok && final(self).cached_spec() == Some(auth),
                        None => (r matches Err(RefreshTokenError::Transient(x)) && x@
                            == "external auth refresh returned unusable tokens"@)
                            && (*final(self) == *old(self)),
                    },
            },
    {
        match refreshed {
            Err(m) => Err(RefreshTokenError::Transient(m)),
            Ok(tokens) => {
                let auth = codex_auth_from_external_tokens(external_mode, &tokens);
                let ghost g = auth;
                match auth {
                    Some(a) => {
                        self.set_cached_auth(Some(a));
                        assert(auth_from_external_is(g, external_mode, tokens));
                        Ok(())
                    },
                    None => {
                        assert(auth_from_external_is(g, external_mode, tokens));
                        Err(
                            RefreshTokenError::Transient(
                                owned("external auth refresh returned unusable tokens"),
                            ),
                        )
                    },
                }
            },
        }
    }

    /// Nothing is stored, so logging out removes nothing.
    pub fn logout(&self) -> (r: Result<bool, String>)
        ensures
            r == Ok::<bool, String>(false),
    {
        Ok(false)
    }
}


/// A stored agent identity: a JWT still to be verified, or a verified
/// record.
#[derive(Debug, Clone)]
pub enum AgentIdentityStorage {
    Jwt(String),
    Record(AgentIdentityAuthRecord),
}

impl AgentIdentityStorage {
    /// Whether it holds usable material: a non-blank JWT, or a record with a
    /// non-blank runtime id and private key.
    pub fn has_auth_material(&self) -> (r: bool)
        ensures
            r == match *self {
                AgentIdentityStorage::Jwt(j) => trim_seq(j@).len() > 0,
                AgentIdentityStorage::Record(rec) => trim_seq(rec.agent_runtime_id@).len() > 0
                    && trim_seq(rec.agent_private_key@).len() > 0,
            },
    {
        match self {
            AgentIdentityStorage::Jwt(jwt) => trim(jwt.as_str()).unicode_len() > 0,
            AgentIdentityStorage::Record(record) => trim(record.agent_runtime_id.as_str()).unicode_len()
                > 0 && trim(record.agent_private_key.as_str()).unicode_len() > 0,
        }
    }

    pub fn as_record(&self) -> (r: Option<&AgentIdentityAuthRecord>)
        ensures
            match *self {
                AgentIdentityStorage::Jwt(_) => r is None,
                AgentIdentityStorage::Record(rec) => r == Some(&rec),
            },
    {
        match self {
            AgentIdentityStorage::Jwt(_) => None,
            AgentIdentityStorage::Record(record) => Some(record),
        }
    }
}

/// Turns a stored record into agent identity credentials; a record that
/// still needs a task registered cannot be used in the browser.
pub fn agent_identity_auth_from_record(record: AgentIdentityAuthRecord) -> (r: Result<
    AgentIdentityAuth,
    String,
>)
    ensures
        match record.task_id {
            Some(t) => trim_seq(t@).len() == 0,
            None => true,
        } ==> (r matches Err(m) && m@
            == "agent identity task registration is unavailable in the browser runtime"@),
        !(match record.task_id {
            Some(t) => trim_seq(t@).len() == 0,
            None => true,
        }) ==> (r matches Ok(a) && a.record == record),
{
    if record_needs_task_registration(&record) {
        return Err(owned("agent identity task registration is unavailable in the browser runtime"));
    }
    Ok(AgentIdentityAuth { record })
}

impl AgentIdentityAuth {
    /// The id of the task the identity runs, or empty text.
    pub fn run_task_id(&self) -> (r: &str)
        ensures
            r@ == match self.record.task_id {
                Some(t) => t@,
                None => Seq::<char>::empty(),
            },
    {
        match &self.record.task_id {
            Some(t) => t.as_str(),
            None => {
                proof {
                    reveal_strlit("");
                }
                ""
            },
        }
    }

    pub fn account_id(&self) -> (r: &str)
        ensures
            r@ == self.record.account_id@,
    {
        self.record.account_id.as_str()
    }

    pub fn chatgpt_user_id(&self) -> (r: &str)
        ensures
            r@ == self.record.chatgpt_user_id@,
    {
        self.record.chatgpt_user_id.as_str()
    }

    pub fn is_fedramp_account(&self) -> (r: bool)
        ensures
            r == self.record.chatgpt_account_is_fedramp,
    {
        self.record.chatgpt_account_is_fedramp
    }
}

/// The account a managed ChatGPT agent identity is bound to.
#[derive(Debug, Clone)]
pub struct ManagedChatGptAgentIdentityBinding {
    pub account_id: String,
    pub chatgpt_user_id: String,
    pub email: Option<String>,
    pub plan_type: String,
    pub chatgpt_account_is_fedramp: bool,
    pub access_token: String,
}

/// Whether a stored record belongs to the binding's account and user and
/// holds a private key.
pub fn record_matches_managed_chatgpt_binding(
    record: &AgentIdentityAuthRecord,
    binding: &ManagedChatGptAgentIdentityBinding,
) -> (r: bool)
    ensures
        r == (record.account_id@ == binding.account_id@ && record.chatgpt_user_id@
            == binding.chatgpt_user_id@ && trim_seq(record.agent_private_key@).len() > 0),
{
    str_eq(record.account_id.as_str(), binding.account_id.as_str()) && str_eq(
        record.chatgpt_user_id.as_str(),
        binding.chatgpt_user_id.as_str(),
    ) && trim(record.agent_private_key.as_str()).unicode_len() > 0
}

// ---------------------------------------------------------------------------
// The browser's credential store
// ---------------------------------------------------------------------------

/// The credentials of each Codex home, kept for the life of the page.
pub struct BrowserAuthStore {
    entries: Vec<(String, AuthDotJson)>,
}

/// Whether a stored key names the Codex home `home`: the same text, or the
/// same path.
pub open spec fn same_home(key: Seq<char>, home: Seq<char>) -> bool {
    key == home || crate::rollout::same_path(key, home)
}

fn is_same_home(key: &str, home: &str) -> (r: bool)
    ensures
        r == same_home(key@, home@),
{
    str_eq(key, home) || crate::rollout::paths_are_equal(key, home)
}

/// The credentials stored under `home`: those of the first entry whose path
/// is the same path.
pub open spec fn stored_auth(entries: Seq<(String, AuthDotJson)>, home: Seq<char>) -> Option<
    AuthDotJson,
>
    decreases entries.len(),
{
    if entries.len() == 0 {
        None
    } else if same_home(entries[0].0@, home) {
        Some(entries[0].1)
    } else {
        stored_auth(entries.drop_first(), home)
    }
}

/// Whether `other` is a home apart from `home` in `entries`: neither text
/// names the other, and no stored key that names `home` names `other`.
pub open spec fn apart_homes(entries: Seq<(String, AuthDotJson)>, home: Seq<char>, other: Seq<char>) -> bool {
    &&& !same_home(home, other)
    &&& forall|j: int|
        0 <= j < entries.len() && same_home(#[trigger] entries[j].0@, home) ==> !same_home(
            entries[j].0@,
            other,
        )
}

/// `entries` without those kept for `home`.
pub open spec fn drop_home(entries: Seq<(String, AuthDotJson)>, home: Seq<char>) -> Seq<(String, AuthDotJson)>
    decreases entries.len(),
{
    if entries.len() == 0 {
        entries
    } else if same_home(entries[0].0@, home) {
        drop_home(entries.drop_first(), home)
    } else {
        seq![entries[0]] + drop_home(entries.drop_first(), home)
    }
}

impl BrowserAuthStore {
    pub closed spec fn entries_spec(&self) -> Seq<(String, AuthDotJson)> {
        self.entries@
    }

    pub fn new() -> (r: Self)
        ensures
            r.entries_spec().len() == 0,
    {
        BrowserAuthStore { entries: Vec::new() }
    }

    fn find(&self, home: &str) -> (r: Option<usize>)
        ensures
            match r {
                Some(i) => i < self.entries@.len() && stored_auth(self.entries@, home@) == Some(
                    self.entries@[i as int].1,
                ) && same_home(self.entries@[i as int].0@, home@)
                    && forall|j: int| 0 <= j < i ==> !same_home(
                    #[trigger] self.entries@[j].0@,
                    home@,
                ),
                None => stored_auth(self.entries@, home@) is None && forall|j: int|
                    0 <= j < self.entries@.len() ==> !same_home(
                        #[trigger] self.entries@[j].0@,
                        home@,
                    ),
            },
    {
        let mut i: usize = 0;
        assert(self.entries@.subrange(0, self.entries@.len() as int) =~= self.entries@);
        while i < self.entries.len()
            invariant
                i <= self.entries@.len(),
                forall|j: int| 0 <= j < i ==> !same_home(
                    #[trigger] self.entries@[j].0@,
                    home@,
                ),
                stored_auth(self.entries@, home@) == stored_auth(
                    self.entries@.subrange(i as int, self.entries@.len() as int),
                    home@,
                ),
            decreases self.entries.len() - i,
        {
            let ghost rest = self.entries@.subrange(i as int, self.entries@.len() as int);
            assert(rest.drop_first() =~= self.entries@.subrange(i + 1, self.entries@.len() as int));
            assert(rest[0] == self.entries@[i as int]);
            if is_same_home(self.entries[i].0.as_str(), home) {
                return Some(i);
            }
            i = i + 1;
        }
        None
    }

    /// The credentials kept for `codex_home`.
    pub fn load(&self, codex_home: &str) -> (r: Option<&AuthDotJson>)
        ensures
            match r {
                Some(a) => stored_auth(self.entries_spec(), codex_home@) == Some(*a),
                None => stored_auth(self.entries_spec(), codex_home@) is None,
            },
    {
        match self.find(codex_home) {
            Some(i) => Some(&self.entries[i].1),
            None => None,
        }
    }

    /// Keeps `auth` for `codex_home`, replacing what was kept for the same
    /// path (whose key stays as first written).
    pub fn save(&mut self, codex_home: &str, auth: AuthDotJson)
        ensures
            stored_auth(final(self).entries_spec(), codex_home@) == Some(auth),
            forall|other: Seq<char>|
                apart_homes(old(self).entries_spec(), codex_home@, other) ==> #[trigger] stored_auth(
                    final(self).entries_spec(),
                    other,
                ) == stored_auth(old(self).entries_spec(), other),
    {
        match self.find(codex_home) {
            Some(i) => {
                let ghost before = self.entries@;
                let key = clone_string(&self.entries[i].0);
                self.entries.set(i, (key, auth));
                proof {
                    lemma_stored_after_set(before, self.entries@, i as int, codex_home@);
                    assert forall|other: Seq<char>| apart_homes(before, codex_home@, other) implies #[trigger] stored_auth(
                        self.entries@,
                        other,
                    ) == stored_auth(before, other) by {
                        lemma_stored_other_set(before, self.entries@, i as int, other);
                    }
                }
            },
            None => {
                let ghost before = self.entries@;
                self.entries.push((owned(codex_home), auth));
                proof {
                    lemma_stored_after_push(before, self.entries@, codex_home@);
                    assert forall|other: Seq<char>| apart_homes(before, codex_home@, other) implies #[trigger] stored_auth(
                        self.entries@,
                        other,
                    ) == stored_auth(before, other) by {
                        lemma_stored_other_push(before, self.entries@, other);
                    }
                }
            },
        }
    }

    /// Forgets what was kept for `codex_home`; tells whether there was any.
    pub fn delete(&mut self, codex_home: &str) -> (r: bool)
        ensures
            r == (stored_auth(old(self).entries_spec(), codex_home@) is Some),
            stored_auth(final(self).entries_spec(), codex_home@) is None,
            forall|other: Seq<char>|
                apart_homes(old(self).entries_spec(), codex_home@, other) ==> #[trigger] stored_auth(
                    final(self).entries_spec(),
                    other,
                ) == stored_auth(old(self).entries_spec(), other),
    {
        let ghost orig = self.entries@;
        let found = self.find(codex_home).is_some();
        let mut kept: Vec<(String, AuthDotJson)> = Vec::new();
        let mut rest: Vec<(String, AuthDotJson)> = Vec::new();
        std::mem::swap(&mut rest, &mut self.entries);
        assert(kept@ + drop_home(rest@, codex_home@) =~= drop_home(orig, codex_home@));
        while rest.len() > 0
            invariant
                kept@ + drop_home(rest@, codex_home@) == drop_home(orig, codex_home@),
            decreases rest.len(),
        {
            let ghost r0 = rest@;
            let ghost k0 = kept@;
            let entry = rest.remove(0);
            assert(rest@ =~= r0.drop_first());
            if !is_same_home(entry.0.as_str(), codex_home) {
                kept.push(entry);
                assert(kept@ + drop_home(rest@, codex_home@) =~= k0 + drop_home(r0, codex_home@));
            }
        }
        assert(kept@ =~= drop_home(orig, codex_home@));
        proof {
            lemma_drop_home(orig, codex_home@);
            assert forall|other: Seq<char>| apart_homes(orig, codex_home@, other) implies #[trigger] stored_auth(
                kept@,
                other,
            ) == stored_auth(orig, other) by {
                lemma_drop_home_other(orig, codex_home@, other);
            }
        }
        self.entries = kept;
        found
    }
}

proof fn lemma_drop_home(entries: Seq<(String, AuthDotJson)>, home: Seq<char>)
    ensures
        stored_auth(drop_home(entries, home), home) is None,
    decreases entries.len(),
{
    if entries.len() > 0 {
        lemma_drop_home(entries.drop_first(), home);
        if !same_home(entries[0].0@, home) {
            let d = seq![entries[0]] + drop_home(entries.drop_first(), home);
            assert(d.drop_first() =~= drop_home(entries.drop_first(), home));
        }
    }
}

proof fn lemma_drop_home_other(entries: Seq<(String, AuthDotJson)>, home: Seq<char>, other: Seq<char>)
    requires
        forall|j: int|
            0 <= j < entries.len() && same_home(#[trigger] entries[j].0@, home) ==> !same_home(
                entries[j].0@,
                other,
            ),
    ensures
        stored_auth(drop_home(entries, home), other) == stored_auth(entries, other),
    decreases entries.len(),
{
    if entries.len() > 0 {
        let rest = entries.drop_first();
        assert forall|j: int|
            0 <= j < rest.len() && same_home(#[trigger] rest[j].0@, home) implies !same_home(rest[j].0@, other) by {
            assert(rest[j] == entries[j + 1]);
        }
        lemma_drop_home_other(rest, home, other);
        if !same_home(entries[0].0@, home) {
            let d = seq![entries[0]] + drop_home(rest, home);
            assert(d.drop_first() =~= drop_home(rest, home));
        } else {
            assert(same_home(entries[0].0@, home));
        }
    }
}

proof fn lemma_stored_other_set(
    before: Seq<(String, AuthDotJson)>,
    after: Seq<(String, AuthDotJson)>,
    i: int,
    other: Seq<char>,
)
    requires
        0 <= i < before.len(),
        after.len() == before.len(),
        after[i].0@ == before[i].0@,
        forall|j: int| 0 <= j < before.len() && j != i ==> after[j] == before[j],
        !same_home(before[i].0@, other),
    ensures
        stored_auth(after, other) == stored_auth(before, other),
    decreases before.len(),
{
    if i == 0 {
        assert(after.drop_first() =~= before.drop_first());
    } else {
        assert(after[0] == before[0]);
        let (b, a) = (before.drop_first(), after.drop_first());
        assert forall|j: int| 0 <= j < b.len() && j != i - 1 implies a[j] == b[j] by {
            assert(a[j] == after[j + 1]);
            assert(b[j] == before[j + 1]);
        }
        lemma_stored_other_set(b, a, i - 1, other);
    }
}

proof fn lemma_stored_other_push(
    before: Seq<(String, AuthDotJson)>,
    after: Seq<(String, AuthDotJson)>,
    other: Seq<char>,
)
    requires
        after.len() == before.len() + 1,
        forall|j: int| 0 <= j < before.len() ==> after[j] == before[j],
        !same_home(after[before.len() as int].0@, other),
    ensures
        stored_auth(after, other) == stored_auth(before, other),
    decreases before.len(),
{
    if before.len() > 0 {
        assert(after[0] == before[0]);
        let (b, a) = (before.drop_first(), after.drop_first());
        assert forall|j: int| 0 <= j < b.len() implies a[j] == b[j] by {
            assert(a[j] == after[j + 1]);
            assert(b[j] == before[j + 1]);
        }
        assert(a[b.len() as int] == after[before.len() as int]);
        lemma_stored_other_push(b, a, other);
    } else {
        assert(after.drop_first().len() == 0);
        assert(stored_auth(after.drop_first(), other) is None);
    }
}

proof fn lemma_stored_none(entries: Seq<(String, AuthDotJson)>, home: Seq<char>)
    requires
        forall|j: int| 0 <= j < entries.len() ==> !same_home(
            #[trigger] entries[j].0@,
            home,
        ),
    ensures
        stored_auth(entries, home) is None,
    decreases entries.len(),
{
    if entries.len() > 0 {
        assert(!same_home(entries[0].0@, home));
        let rest = entries.drop_first();
        assert forall|j: int| 0 <= j < rest.len() implies !same_home(
            #[trigger] rest[j].0@,
            home,
        ) by {
            assert(rest[j] == entries[j + 1]);
        }
        lemma_stored_none(rest, home);
    }
}

proof fn lemma_stored_after_set(
    before: Seq<(String, AuthDotJson)>,
    after: Seq<(String, AuthDotJson)>,
    i: int,
    home: Seq<char>,
)
    requires
        0 <= i < before.len(),
        after.len() == before.len(),
        after[i].0@ == before[i].0@,
        forall|j: int| 0 <= j < before.len() && j != i ==> after[j] == before[j],
        same_home(before[i].0@, home),
        forall|j: int| 0 <= j < i ==> !same_home(#[trigger] before[j].0@, home),
    ensures
        stored_auth(after, home) == Some(after[i].1),
    decreases i,
{
    if i == 0 {
    } else {
        assert(!same_home(before[0].0@, home));
        assert(after[0] == before[0]);
        let (b, a) = (before.drop_first(), after.drop_first());
        assert forall|j: int| 0 <= j < b.len() && j != i - 1 implies a[j] == b[j] by {
            assert(a[j] == after[j + 1]);
            assert(b[j] == before[j + 1]);
        }
        assert forall|j: int| 0 <= j < i - 1 implies !same_home(
            #[trigger] b[j].0@,
            home,
        ) by {
            assert(b[j] == before[j + 1]);
        }
        lemma_stored_after_set(b, a, i - 1, home);
    }
}

proof fn lemma_stored_after_push(
    before: Seq<(String, AuthDotJson)>,
    after: Seq<(String, AuthDotJson)>,
    home: Seq<char>,
)
    requires
        after.len() == before.len() + 1,
        forall|j: int| 0 <= j < before.len() ==> after[j] == before[j],
        same_home(after[before.len() as int].0@, home),
        forall|j: int| 0 <= j < before.len() ==> !same_home(
            #[trigger] before[j].0@,
            home,
        ),
    ensures
        stored_auth(after, home) == Some(after[before.len() as int].1),
    decreases before.len(),
{
    if before.len() > 0 {
        assert(after[0] == before[0]);
        let (b, a) = (before.drop_first(), after.drop_first());
        assert forall|j: int| 0 <= j < b.len() implies a[j] == b[j] by {
            assert(a[j] == after[j + 1]);
            assert(b[j] == before[j + 1]);
        }
        assert forall|j: int| 0 <= j < b.len() implies !same_home(
            #[trigger] b[j].0@,
            home,
        ) by {
            assert(b[j] == before[j + 1]);
        }
        lemma_stored_after_push(b, a, home);
    }
}

} // verus!
