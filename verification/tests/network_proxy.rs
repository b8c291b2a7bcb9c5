use codex_browser::network_proxy::build_config_state;
use codex_browser::network_proxy::format_host_port;
use codex_browser::network_proxy::has_proxy_url_env_vars;
use codex_browser::network_proxy::host_and_port_from_network_addr;
use codex_browser::network_proxy::normalize_host;
use codex_browser::network_proxy::proxy_url_env_value;
use codex_browser::network_proxy::BlockedRequest;
use codex_browser::network_proxy::BlockedRequestArgs;
use codex_browser::network_proxy::NetworkDomainPermission;
use codex_browser::network_proxy::NetworkDomainPermissionEntry;
use codex_browser::network_proxy::NetworkDomainPermissions;
use codex_browser::network_proxy::NetworkMode;
use codex_browser::network_proxy::NetworkProxyAuditMetadata;
use codex_browser::network_proxy::NetworkProxyConstraints;
use codex_browser::network_proxy::NetworkProxySettings;
use codex_browser::network_proxy::NetworkProxyState;

fn env(pairs: &[(&str, &str)]) -> Vec<(String, String)> {
    pairs
        .iter()
        .map(|(k, v)| (k.to_string(), v.to_string()))
        .collect()
}

#[test]
fn hosts_are_normalized() {
    assert_eq!(normalize_host(" Example.COM. "), "example.com");
    assert_eq!(normalize_host("example.com:443"), "example.com");
    assert_eq!(normalize_host("example.com:notaport"), "example.com:notaport");
    assert_eq!(normalize_host("[FE80::1%25eth0]"), "fe80::1%eth0");
    assert_eq!(normalize_host("::1"), "::1");
}

#[test]
fn host_ports_are_formatted() {
    assert_eq!(format_host_port("example.com", 80), "example.com:80");
    assert_eq!(format_host_port("::1", 8080), "[::1]:8080");
    assert_eq!(format_host_port("[::1]", 8080), "[::1]:8080");
}

#[test]
fn proxy_addresses_resolve_to_host_and_port() {
    assert_eq!(host_and_port_from_network_addr("", 3128), "127.0.0.1:3128");
    assert_eq!(host_and_port_from_network_addr("  ", 3128), "127.0.0.1:3128");
    assert_eq!(
        host_and_port_from_network_addr("http://example.com:8080", 3128),
        "example.com:8080"
    );
    assert_eq!(
        host_and_port_from_network_addr("https://example.com", 3128),
        "example.com:443"
    );
    assert_eq!(host_and_port_from_network_addr("example.com", 3128), "example.com:3128");
    assert_eq!(host_and_port_from_network_addr("http://[::1]:9000", 3128), "[::1]:9000");
}

#[test]
fn proxy_variables_are_found_in_either_case() {
    let e = env(&[("http_proxy", "http://p:1")]);
    assert_eq!(proxy_url_env_value(&e, "HTTP_PROXY").as_deref(), Some("http://p:1"));
    assert!(has_proxy_url_env_vars(&e));
    let upper = env(&[("HTTPS_PROXY", "http://a"), ("https_proxy", "http://b")]);
    assert_eq!(proxy_url_env_value(&upper, "HTTPS_PROXY").as_deref(), Some("http://a"));
    assert!(!has_proxy_url_env_vars(&env(&[("ALL_PROXY", "   ")])));
    assert!(!has_proxy_url_env_vars(&env(&[("NO_PROXY", "x")])));
}

#[test]
fn effective_entries_keep_the_strongest_permission() {
    let perms = NetworkDomainPermissions {
        entries: vec![
            NetworkDomainPermissionEntry {
                pattern: "a.com".to_string(),
                permission: NetworkDomainPermission::Allow,
            },
            NetworkDomainPermissionEntry {
                pattern: "b.com".to_string(),
                permission: NetworkDomainPermission::NoPermission,
            },
            NetworkDomainPermissionEntry {
                pattern: "a.com".to_string(),
                permission: NetworkDomainPermission::Deny,
            },
            NetworkDomainPermissionEntry {
                pattern: "a.com".to_string(),
                permission: NetworkDomainPermission::Allow,
            },
        ],
    };
    let effective = perms.effective_entries();
    assert_eq!(effective.len(), 2);
    assert_eq!(effective[0].pattern, "a.com");
    assert_eq!(effective[0].permission, NetworkDomainPermission::Deny);
    assert_eq!(effective[1].pattern, "b.com");
    assert_eq!(effective[1].permission, NetworkDomainPermission::NoPermission);
}

#[test]
fn domain_lists_and_upserts() {
    let mut settings = NetworkProxySettings::default();
    assert!(settings.allowed_domains().is_none());
    settings.set_allowed_domains(vec!["a.com".to_string(), "b.com".to_string()]);
    assert_eq!(
        settings.allowed_domains(),
        Some(vec!["a.com".to_string(), "b.com".to_string()])
    );
    settings.upsert_domain_permission("A.COM.".to_string(), NetworkDomainPermission::Deny);
    assert_eq!(settings.allowed_domains(), Some(vec!["b.com".to_string()]));
    assert_eq!(settings.denied_domains(), Some(vec!["A.COM.".to_string()]));
    assert_eq!(settings.mode, NetworkMode::Full);
    assert!(NetworkMode::Limited.allows_method("GET"));
    assert!(!NetworkMode::Limited.allows_method("POST"));
    assert!(NetworkMode::Full.allows_method("POST"));
}

#[test]
fn blocked_requests_are_drained_in_order() {
    let state = build_config_state(NetworkProxySettings::default(), NetworkProxyConstraints::default());
    let mut proxy = NetworkProxyState::with_audit_metadata(state, NetworkProxyAuditMetadata::default());
    for host in ["a.com", "b.com"] {
        proxy.record_blocked(BlockedRequest::new(BlockedRequestArgs {
            host: host.to_string(),
            reason: "denied".to_string(),
            client: None,
            method: None,
            mode: None,
            protocol: "http".to_string(),
            decision: None,
            source: None,
            port: Some(443),
        }));
    }
    let drained = proxy.drain_blocked();
    assert_eq!(drained.len(), 2);
    assert_eq!(drained[0].host, "a.com");
    assert_eq!(drained[1].host, "b.com");
    assert!(proxy.drain_blocked().is_empty());
}
