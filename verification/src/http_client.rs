use vstd::prelude::*;

use crate::browser_cli::cat2;

verus! {

// ---------------------------------------------------------------------------
// Outbound proxy routing in the browser: the user agent picks routes and
// proxies, so every request keeps the transport's default route.
// ---------------------------------------------------------------------------

#[derive(Debug, Clone, Copy, PartialEq, Eq, Structural)]
pub enum ClientRouteClass {
    Auth,
    Api,
    WebSocket,
    Other,
}

pub open spec fn route_class_text(c: ClientRouteClass) -> Seq<char> {
    match c {
        ClientRouteClass::Auth => "auth"@,
        ClientRouteClass::Api => "api"@,
        ClientRouteClass::WebSocket => "wss"@,
        ClientRouteClass::Other => "other"@,
    }
}

impl ClientRouteClass {
    /// The label a route class is shown with.
    pub fn as_str(self) -> (r: &'static str)
        ensures
            r@ == route_class_text(self),
    {
        match self {
            ClientRouteClass::Auth => "auth",
            ClientRouteClass::Api => "api",
            ClientRouteClass::WebSocket => "wss",
            ClientRouteClass::Other => "other",
        }
    }
}

#[derive(Debug, Clone, Copy, PartialEq, Eq, Structural)]
pub enum RouteFailureClass {
    ProxyResolutionUnavailable,
    ConnectTimeout,
    ProxyAuthenticationRequired,
    TlsError,
    InvalidProxyConfig,
    UnsupportedProxyScheme,
    ResolverError,
}

pub open spec fn route_failure_text(c: RouteFailureClass) -> Seq<char> {
    match c {
        RouteFailureClass::ProxyResolutionUnavailable => "proxy_resolution_unavailable"@,
        RouteFailureClass::ConnectTimeout => "connect_timeout"@,
        RouteFailureClass::ProxyAuthenticationRequired => "proxy_407"@,
        RouteFailureClass::TlsError => "tls_error"@,
        RouteFailureClass::InvalidProxyConfig => "invalid_proxy_config"@,
        RouteFailureClass::UnsupportedProxyScheme => "unsupported_proxy_scheme"@,
        RouteFailureClass::ResolverError => "resolver_error"@,
    }
}

impl RouteFailureClass {
    /// The label a route failure is reported with.
    pub fn as_str(self) -> (r: &'static str)
        ensures
            r@ == route_failure_text(self),
    {
        match self {
            RouteFailureClass::ProxyResolutionUnavailable => "proxy_resolution_unavailable",
            RouteFailureClass::ConnectTimeout => "connect_timeout",
            RouteFailureClass::ProxyAuthenticationRequired => "proxy_407",
            RouteFailureClass::TlsError => "tls_error",
            RouteFailureClass::InvalidProxyConfig => "invalid_proxy_config",
            RouteFailureClass::UnsupportedProxyScheme => "unsupported_proxy_scheme",
            RouteFailureClass::ResolverError => "resolver_error",
        }
    }
}

#[derive(Debug, Clone, Copy, PartialEq, Eq, Structural)]
pub enum OutboundProxyPolicy {
    ReqwestDefault,
    RespectSystemProxy,
}

#[derive(Clone, PartialEq, Eq)]
pub enum OutboundProxyRoute {
    TransportDefault,
    Direct,
    Proxy { url: String, no_proxy: Option<String> },
}

#[derive(Debug, Clone, Copy, PartialEq, Eq, Structural)]
pub struct HttpClientFactory {
    outbound_proxy_policy: OutboundProxyPolicy,
}

impl HttpClientFactory {
    pub closed spec fn policy_spec(self) -> OutboundProxyPolicy {
        self.outbound_proxy_policy
    }

    pub fn new(outbound_proxy_policy: OutboundProxyPolicy) -> (r: Self)
        ensures
            r.policy_spec() == outbound_proxy_policy,
    {
        HttpClientFactory { outbound_proxy_policy }
    }

    pub fn outbound_proxy_policy(&self) -> (r: OutboundProxyPolicy)
        ensures
            r == self.policy_spec(),
    {
        self.outbound_proxy_policy
    }

    /// The route for a request: always the transport's default.
    pub fn resolve_proxy_route(&self, request_url: &str) -> (r: OutboundProxyRoute)
        ensures
            r is TransportDefault,
    {
        OutboundProxyRoute::TransportDefault
    }
}

/// Why a route-aware client could not be built.
#[derive(Debug, Clone, Copy, PartialEq, Eq, Structural)]
pub enum BuildRouteAwareHttpClientError {
    InvalidProxyConfig { route_class: ClientRouteClass },
}

impl BuildRouteAwareHttpClientError {
    /// The error's message.
    pub fn message(&self) -> (r: String)
        ensures
            r@ == "Failed to configure outbound proxy selected for "@ + route_class_text(
                self->route_class,
            ),
    {
        match self {
            BuildRouteAwareHttpClientError::InvalidProxyConfig { route_class } => cat2(
                "Failed to configure outbound proxy selected for ",
                route_class.as_str(),
            ),
        }
    }
}

} // verus!
