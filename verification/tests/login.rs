use codex_browser::login::auth_dot_json_from_env;
use codex_browser::login::create_dummy_chatgpt_auth_for_testing;
use codex_browser::login::default_headers;
use codex_browser::login::get_codex_user_agent;
use codex_browser::login::is_first_party_originator;
use codex_browser::login::load_auth;
use codex_browser::login::login_with_api_key;
use codex_browser::login::logout;
use codex_browser::login::originator;
use codex_browser::login::read_openai_api_key_from_env;
use codex_browser::login::AuthCredentialsStoreMode;
use codex_browser::login::AuthManager;
use codex_browser::login::AuthMode;
use codex_browser::login::CodexAuth;
use codex_browser::login::ExternalAuthRefreshReason;
use codex_browser::login::ExternalAuthTokens;
use codex_browser::login::IdTokenInfo;
use codex_browser::login::RefreshTokenError;
use codex_browser::login::UnauthorizedRecovery;
use codex_browser::login::get_auth_file;
use codex_browser::login::AuthDotJson;
use codex_browser::login::BrowserAuthStore;

fn env(pairs: &[(&str, &str)]) -> Vec<(String, String)> {
    pairs
        .iter()
        .map(|(k, v)| (k.to_string(), v.to_string()))
        .collect()
}

fn claims() -> IdTokenInfo {
    IdTokenInfo {
        chatgpt_account_id: Some("acct-1".to_string()),
        ..IdTokenInfo::default()
    }
}

fn api_key(auth: &Option<CodexAuth>) -> Option<String> {
    match auth {
        Some(a) => a.api_key().map(|k| k.to_string()),
        None => None,
    }
}

#[test]
fn env_keys_are_trimmed_and_blank_ones_ignored() {
    assert_eq!(read_openai_api_key_from_env(&env(&[("OPENAI_API_KEY", "  sk-1 ")])).as_deref(), Some("sk-1"));
    assert_eq!(read_openai_api_key_from_env(&env(&[("OPENAI_API_KEY", "   ")])), None);
}

#[test]
fn load_auth_prefers_the_enabled_codex_key() {
    let e = env(&[("CODEX_API_KEY", "codex"), ("OPENAI_API_KEY", "openai")]);
    assert_eq!(api_key(&load_auth(&e, true, claims()).unwrap()).as_deref(), Some("codex"));
    assert_eq!(api_key(&load_auth(&e, false, claims()).unwrap()).as_deref(), Some("openai"));
    let only_codex = env(&[("CODEX_API_KEY", "codex")]);
    assert_eq!(api_key(&load_auth(&only_codex, false, claims()).unwrap()).as_deref(), Some("codex"));
    assert!(load_auth(&Vec::new(), true, claims()).unwrap().is_none());
}

#[test]
fn access_tokens_become_chatgpt_tokens() {
    let e = env(&[("CODEX_ACCESS_TOKEN", "tok")]);
    let auth = load_auth(&e, true, claims()).unwrap().unwrap();
    assert_eq!(auth.auth_mode(), AuthMode::ChatgptAuthTokens);
    assert_eq!(auth.get_account_id().as_deref(), Some("acct-1"));
    assert_eq!(auth.get_token().unwrap(), "tok");
    let json = auth_dot_json_from_env(&e, claims()).unwrap();
    assert_eq!(json.auth_mode, Some(AuthMode::ChatgptAuthTokens));
    assert!(json.last_refresh.is_some());
}

#[test]
fn storage_is_unavailable_in_the_browser() {
    assert_eq!(
        login_with_api_key("/h", "sk", AuthCredentialsStoreMode::File),
        Err("saving API key auth needs a browser auth storage host shim".to_string())
    );
    assert_eq!(logout("/h", AuthCredentialsStoreMode::File), Ok(false));
}

#[test]
fn cached_auth_changes_bump_the_revision() {
    let mut manager = AuthManager::new("/h".to_string(), false, AuthCredentialsStoreMode::File, None, None);
    assert!(manager.auth_cached().is_none());
    assert!(manager.set_cached_auth(Some(CodexAuth::from_api_key("a"))));
    assert_eq!(manager.revision(), 1);
    assert!(!manager.set_cached_auth(Some(CodexAuth::from_api_key("b"))));
    assert_eq!(manager.revision(), 1);
    assert_eq!(manager.auth_cached().unwrap().api_key(), Some("b"));
    assert!(manager.set_cached_auth(Some(create_dummy_chatgpt_auth_for_testing())));
    assert_eq!(manager.revision(), 2);
    assert_eq!(manager.auth_mode(), Some(AuthMode::Chatgpt));
    assert!(manager.current_auth_uses_codex_backend());
    assert!(manager.set_cached_auth(None));
    assert_eq!(manager.revision(), 3);
}

#[test]
fn external_refresh_needs_external_auth() {
    let mut manager = AuthManager::from_auth_for_testing(CodexAuth::from_api_key("k"));
    match manager.begin_external_refresh(ExternalAuthRefreshReason::Unauthorized) {
        Err(RefreshTokenError::Transient(m)) => assert_eq!(m, "token refresh needs a browser auth host shim"),
        _ => panic!("no external auth"),
    }
    manager.set_external_auth();
    let context = manager.begin_external_refresh(ExternalAuthRefreshReason::Unauthorized).unwrap();
    assert!(context.previous_account_id.is_none());
    let tokens = ExternalAuthTokens::chatgpt("tok".to_string(), "acct".to_string(), None);
    assert!(manager.finish_external_refresh(AuthMode::ChatgptAuthTokens, Ok(tokens)).is_ok());
    assert_eq!(manager.auth_mode(), Some(AuthMode::ChatgptAuthTokens));
    assert!(manager.is_external_chatgpt_auth_active());
    match manager.finish_external_refresh(AuthMode::ChatgptAuthTokens, Err("down".to_string())) {
        Err(RefreshTokenError::Transient(m)) => assert_eq!(m, "down"),
        _ => panic!("the host's failure is passed on"),
    }
}

#[test]
fn recovery_makes_one_attempt() {
    let mut recovery = UnauthorizedRecovery::new(true);
    assert!(recovery.has_next());
    assert!(recovery.begin_next().is_ok());
    assert!(!recovery.has_next());
    assert_eq!(recovery.unavailable_reason(), "recovery_exhausted");
    assert!(recovery.begin_next().is_err());
    let none = UnauthorizedRecovery::new(false);
    assert_eq!(none.unavailable_reason(), "no_external_auth");
}

#[test]
fn originator_and_user_agent() {
    assert_eq!(originator().value, "codex_cli_rs");
    assert!(is_first_party_originator("codex_cli_rs_wasm"));
    assert!(!is_first_party_originator("other"));
    assert_eq!(get_codex_user_agent("1.0"), "codex_cli_rs/1.0");
    let headers = default_headers("1.0");
    assert_eq!(headers, vec![("user-agent".to_string(), "codex_cli_rs/1.0".to_string())]);
    let bad = default_headers("1.0\n");
    assert_eq!(bad[0].1, "codex_cli_rs");
}

#[test]
fn browser_auth_store_reads_back_what_was_saved() {
    let mut store = BrowserAuthStore::new();
    let auth = AuthDotJson {
        auth_mode: Some(AuthMode::ApiKey),
        openai_api_key: Some("sk".to_string()),
        tokens: None,
        last_refresh: None,
        agent_identity: None,
    };
    assert!(store.load("/h").is_none());
    store.save("/h/", auth.clone());
    assert_eq!(store.load("/h").unwrap().openai_api_key.as_deref(), Some("sk"));
    assert!(store.delete("/h"));
    assert!(store.load("/h/").is_none());
    assert!(!store.delete("/h"));
    assert_eq!(get_auth_file("/h"), "/h/auth.json");
}

#[test]
fn browser_auth_store_keeps_other_homes_apart() {
    let mut store = BrowserAuthStore::new();
    let auth = |key: &str| AuthDotJson {
        auth_mode: Some(AuthMode::ApiKey),
        openai_api_key: Some(key.to_string()),
        tokens: None,
        last_refresh: None,
        agent_identity: None,
    };
    store.save("/a", auth("ka"));
    store.save("/b", auth("kb"));
    store.save("/a", auth("ka2"));
    assert_eq!(store.load("/b").unwrap().openai_api_key.as_deref(), Some("kb"));
    assert!(store.delete("/a"));
    assert_eq!(store.load("/b").unwrap().openai_api_key.as_deref(), Some("kb"));
    assert!(store.load("/a").is_none());
}
