use codex_browser::app_server::start_in_process;
use codex_browser::app_server::ApiError;
use codex_browser::app_server::InProcessClientHandle;
use codex_browser::app_server::RemoteAppServerClient;
use codex_browser::app_server::RemoteAppServerConnectArgs;
use codex_browser::app_server::RemoteAppServerEndpoint;
use codex_browser::app_server::ResponsesWebsocketConnection;
use codex_browser::app_server::WasmAppServer;
use codex_browser::codex_apps::normalize_codex_apps_callable_name;
use codex_browser::codex_apps::normalize_codex_apps_callable_namespace;
use codex_browser::codex_apps::normalize_codex_apps_tool_title;
use codex_browser::http_client::BuildRouteAwareHttpClientError;
use codex_browser::http_client::ClientRouteClass;
use codex_browser::http_client::HttpClientFactory;
use codex_browser::http_client::OutboundProxyPolicy;
use codex_browser::http_client::OutboundProxyRoute;
use codex_browser::http_client::RouteFailureClass;
use codex_browser::plugins::curated_plugins_repo_path;
use codex_browser::plugins::has_local_curated_plugins_snapshot;
use codex_browser::plugins::is_supported_amazon_bedrock_region;
use codex_browser::plugins::read_curated_plugins_sha;
use codex_browser::plugins::sync_openai_plugins_repo;
use codex_browser::plugins::RemotePluginBundleInstallError;

#[test]
fn route_labels() {
    assert_eq!(ClientRouteClass::Auth.as_str(), "auth");
    assert_eq!(ClientRouteClass::WebSocket.as_str(), "wss");
    assert_eq!(RouteFailureClass::ProxyAuthenticationRequired.as_str(), "proxy_407");
    assert_eq!(RouteFailureClass::ResolverError.as_str(), "resolver_error");
    assert_eq!(
        BuildRouteAwareHttpClientError::InvalidProxyConfig {
            route_class: ClientRouteClass::Api
        }
        .message(),
        "Failed to configure outbound proxy selected for api"
    );
}

#[test]
fn the_browser_keeps_the_default_route() {
    let factory = HttpClientFactory::new(OutboundProxyPolicy::RespectSystemProxy);
    assert_eq!(factory.outbound_proxy_policy(), OutboundProxyPolicy::RespectSystemProxy);
    assert!(matches!(
        factory.resolve_proxy_route("https://example.com"),
        OutboundProxyRoute::TransportDefault
    ));
}

#[test]
fn initialize_params_list_opt_outs_only_when_given() {
    let mut args = RemoteAppServerConnectArgs {
        endpoint: RemoteAppServerEndpoint::WebSocket {
            websocket_url: "ws://localhost".to_string(),
            auth_token: None,
        },
        client_name: "codex-tui".to_string(),
        client_version: "1.2.3".to_string(),
        experimental_api: true,
        opt_out_notification_methods: Vec::new(),
        channel_capacity: 16,
    };
    let params = args.initialize_params();
    assert_eq!(params.client_info.name, "codex-tui");
    assert_eq!(params.client_info.version, "1.2.3");
    assert!(params.client_info.title.is_none());
    let caps = params.capabilities.unwrap();
    assert!(caps.experimental_api);
    assert!(!caps.request_attestation);
    assert!(caps.opt_out_notification_methods.is_none());
    args.opt_out_notification_methods = vec!["thread/started".to_string()];
    let caps = args.initialize_params().capabilities.unwrap();
    assert_eq!(
        caps.opt_out_notification_methods,
        Some(vec!["thread/started".to_string()])
    );
    match RemoteAppServerClient::connect(args) {
        Err(e) => assert!(e.message.contains("native-only")),
        Ok(_) => panic!("remote transports are not available"),
    }
}

#[test]
fn app_server_runtime_is_unavailable() {
    let _server = WasmAppServer::new();
    match start_in_process() {
        Err(e) => assert!(e.message.contains("not wired to the wasm host")),
        Ok(_) => panic!("no in-process runtime"),
    }
    let mut handle = InProcessClientHandle;
    assert!(handle.next_event().is_none());
    assert!(handle.sender().notify().is_err());
    assert!(handle.shutdown().is_ok());
    let connection = ResponsesWebsocketConnection;
    assert!(connection.is_closed());
    match connection.stream_request() {
        Err(ApiError::Stream(m)) => assert!(m.contains("use HTTP streaming")),
        Ok(_) => panic!("no websocket transport"),
    }
}

#[test]
fn curated_plugins_are_absent() {
    assert_eq!(curated_plugins_repo_path("/home/.codex"), "/home/.codex/.tmp/plugins");
    assert_eq!(curated_plugins_repo_path("/home/.codex/"), "/home/.codex/.tmp/plugins");
    assert!(read_curated_plugins_sha("/home/.codex").is_none());
    assert!(!has_local_curated_plugins_snapshot("/home/.codex"));
    assert_eq!(
        sync_openai_plugins_repo("/home/.codex"),
        Err("browser curated plugin sync requires an almostnode git/archive host shim".to_string())
    );
    assert_eq!(
        RemotePluginBundleInstallError::InvalidBundle("bad".to_string()).message(),
        "bad"
    );
    assert!(!is_supported_amazon_bedrock_region("us-east-1"));
}

#[test]
fn tool_titles_lose_their_connector_prefix() {
    assert_eq!(normalize_codex_apps_tool_title(Some(" Gmail "), "Gmail_send"), "send");
    assert_eq!(normalize_codex_apps_tool_title(Some("Gmail"), "Gmail_"), "Gmail_");
    assert_eq!(normalize_codex_apps_tool_title(Some("  "), "Gmail_send"), "Gmail_send");
    assert_eq!(normalize_codex_apps_tool_title(None, "Gmail_send"), "Gmail_send");
    assert_eq!(normalize_codex_apps_tool_title(Some("Drive"), "Gmail_send"), "Gmail_send");
}

#[test]
fn callable_names_prefer_the_connector_name() {
    assert_eq!(
        normalize_codex_apps_callable_name("gmail_send", Some("conn_1"), Some("gmail_")),
        "send"
    );
    assert_eq!(
        normalize_codex_apps_callable_name("conn_1_send", Some("conn_1_"), Some("gmail_")),
        "send"
    );
    assert_eq!(
        normalize_codex_apps_callable_name("gmail_", Some(""), Some("gmail_")),
        "gmail_"
    );
    assert_eq!(normalize_codex_apps_callable_name("send", None, None), "send");
    assert_eq!(
        normalize_codex_apps_callable_namespace("codex_apps", Some("gmail")),
        "codex_apps__gmail"
    );
    assert_eq!(normalize_codex_apps_callable_namespace("codex_apps", None), "codex_apps");
}
