use vstd::prelude::*;

use crate::browser_cli::cat2;
use crate::browser_cli::cat3;
use crate::text::lower_seq;
use crate::text::owned;
use crate::text::str_eq;
use crate::text::to_ascii_lowercase;

verus! {

#[derive(Debug, Clone, PartialEq, Eq)]
pub struct StreamableHttpOAuthDiscovery {
    pub scopes_supported: Option<Vec<String>>,
}

#[derive(Debug, Clone, Copy, PartialEq, Eq, Structural)]
pub enum McpLoginRequirement {
    Login,
    Reauthentication,
}

/// How an MCP server is authenticated.
#[derive(Debug, Clone, Copy, PartialEq, Eq, Structural)]
pub enum McpAuthState {
    Unsupported,
    LoggedOut(McpLoginRequirement),
    BearerToken,
    OAuth,
}

pub open spec fn is_authorization(header: (String, String)) -> bool {
    lower_seq(header.0@) == "authorization"@
}

/// Whether some header is named `Authorization`, in any ASCII case.
pub open spec fn has_authorization_spec(headers: Option<Seq<(String, String)>>) -> bool {
    match headers {
        Some(h) => any_authorization(h),
        None => false,
    }
}

pub open spec fn headers_view(o: Option<&Vec<(String, String)>>) -> Option<Seq<(String, String)>> {
    match o {
        Some(h) => Some(h@),
        None => None,
    }
}

pub open spec fn owned_headers_view(o: Option<Vec<(String, String)>>) -> Option<Seq<(String, String)>> {
    match o {
        Some(h) => Some(h@),
        None => None,
    }
}

pub open spec fn any_authorization(h: Seq<(String, String)>) -> bool {
    exists|i: int| 0 <= i < h.len() && is_authorization(#[trigger] h[i])
}

pub fn has_authorization_header(headers: Option<&Vec<(String, String)>>) -> (r: bool)
    ensures
        r == has_authorization_spec(headers_view(headers)),
{
    match headers {
        None => false,
        Some(h) => {
            let mut i: usize = 0;
            while i < h.len()
                invariant
                    headers == Some(h),
                    i <= h@.len(),
                    forall|j: int| 0 <= j < i ==> !is_authorization(h@[j]),
                decreases h@.len() - i,
            {
                let lowered = to_ascii_lowercase(h[i].0.as_str());
                if str_eq(lowered.as_str(), "authorization") {
                    assert(is_authorization(h@[i as int]));
                    assert(any_authorization(h@));
                    return true;
                }
                i = i + 1;
            }
            false
        },
    }
}

/// The browser build authenticates MCP servers by bearer token only.
pub open spec fn browser_auth_state_spec(
    bearer_token_env_var: bool,
    http_headers: Option<Seq<(String, String)>>,
    env_http_headers: Option<Seq<(String, String)>>,
) -> McpAuthState {
    if bearer_token_env_var || has_authorization_spec(http_headers) || has_authorization_spec(
        env_http_headers,
    ) {
        McpAuthState::BearerToken
    } else {
        McpAuthState::Unsupported
    }
}

pub fn browser_auth_state(
    bearer_token_env_var: Option<&str>,
    http_headers: Option<&Vec<(String, String)>>,
    env_http_headers: Option<&Vec<(String, String)>>,
) -> (r: McpAuthState)
    ensures
        r == browser_auth_state_spec(
            bearer_token_env_var is Some,
            headers_view(http_headers),
            headers_view(env_http_headers),
        ),
{
    if bearer_token_env_var.is_some() || has_authorization_header(http_headers)
        || has_authorization_header(env_http_headers) {
        McpAuthState::BearerToken
    } else {
        McpAuthState::Unsupported
    }
}

pub fn determine_streamable_http_auth_status_from_credentials(
    server_name: &str,
    url: &str,
    bearer_token_env_var: Option<&str>,
    http_headers: Option<Vec<(String, String)>>,
    env_http_headers: Option<Vec<(String, String)>>,
) -> (r: Result<Option<McpAuthState>, String>)
    ensures
        r == Ok::<Option<McpAuthState>, String>(
            Some(
                browser_auth_state_spec(
                    bearer_token_env_var is Some,
                    owned_headers_view(http_headers),
                    owned_headers_view(env_http_headers),
                ),
            ),
        ),
{
    let state = browser_auth_state(
        bearer_token_env_var,
        match &http_headers {
            Some(h) => Some(h),
            None => None,
        },
        match &env_http_headers {
            Some(h) => Some(h),
            None => None,
        },
    );
    Ok(Some(state))
}

/// The browser build recognizes no authentication-required errors.
pub fn is_authentication_required_error(error: &str) -> (r: bool)
    ensures
        !r,
{
    false
}

/// Makes in-process MCP transports.
pub trait InProcessTransportFactory {
}

/// Starts MCP servers that speak over standard input and output.
pub trait StdioServerLauncher {
}

pub struct LocalStdioServerLauncher {
    fallback_cwd: String,
}

impl LocalStdioServerLauncher {
    pub closed spec fn fallback(&self) -> Seq<char> {
        self.fallback_cwd@
    }

    pub fn new(fallback_cwd: String) -> (r: LocalStdioServerLauncher)
        ensures
            r.fallback() == fallback_cwd@,
    {
        LocalStdioServerLauncher { fallback_cwd }
    }
}

impl StdioServerLauncher for LocalStdioServerLauncher {
}

/// An error an OAuth provider answered with.
#[derive(Debug, Clone, PartialEq, Eq)]
pub struct OAuthProviderError {
    error: Option<String>,
    error_description: Option<String>,
}

impl OAuthProviderError {
    pub closed spec fn error_view(&self) -> Option<Seq<char>> {
        crate::browser_cli::opt_view(self.error)
    }

    pub closed spec fn description_view(&self) -> Option<Seq<char>> {
        crate::browser_cli::opt_view(self.error_description)
    }

    pub fn new(error: Option<String>, error_description: Option<String>) -> (r: OAuthProviderError)
        ensures
            r.error_view() == crate::browser_cli::opt_view(error),
            r.description_view() == crate::browser_cli::opt_view(error_description),
    {
        OAuthProviderError { error, error_description }
    }

    /// The error as it is displayed.
    pub fn message(&self) -> (r: String)
        ensures
            r@ == match (self.error_view(), self.description_view()) {
                (Some(e), Some(d)) => "OAuth provider returned `"@ + e + "`: "@ + d,
                (Some(e), None) => "OAuth provider returned `"@ + e + "`"@,
                (None, Some(d)) => "OAuth error: "@ + d,
                (None, None) => "OAuth provider returned an error"@,
            },
    {
        match (&self.error, &self.error_description) {
            (Some(e), Some(d)) => {
                let head = cat3("OAuth provider returned `", e.as_str(), "`: ");
                cat2(head.as_str(), d.as_str())
            },
            (Some(e), None) => cat3("OAuth provider returned `", e.as_str(), "`"),
            (None, Some(d)) => cat2("OAuth error: ", d.as_str()),
            (None, None) => owned("OAuth provider returned an error"),
        }
    }
}

/// The MCP client; the browser build has no MCP transport.
pub struct RmcpClient {}

} // verus!
