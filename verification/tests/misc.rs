use codex_browser::code_mode::CellId;
use codex_browser::code_mode::ExecuteRequest;
use codex_browser::code_mode::InProcessCodeModeSession;
use codex_browser::code_mode::RuntimeResponse;
use codex_browser::code_mode::WaitOutcome;
use codex_browser::code_mode::WaitRequest;
use codex_browser::git_utils::extract_paths_from_patch;
use codex_browser::git_utils::normalize_diff_path;
use codex_browser::otel::validate_span_attributes;
use codex_browser::otel::RuntimeMetricTotals;
use codex_browser::rmcp::browser_auth_state;
use codex_browser::rmcp::has_authorization_header;
use codex_browser::rmcp::McpAuthState;

fn request() -> ExecuteRequest {
    ExecuteRequest {
        tool_call_id: "call".to_string(),
        source: "1 + 1".to_string(),
        yield_time_ms: None,
        max_output_tokens: None,
    }
}

#[test]
fn cells_are_numbered_from_one() {
    let mut session = InProcessCodeModeSession::new();
    assert_eq!(session.allocate_cell_id().as_str(), "1");
    let started = session.execute(request()).unwrap();
    assert_eq!(started.cell_id.as_str(), "2");
    match started.initial_response().unwrap() {
        RuntimeResponse::Result { error_text, .. } => assert_eq!(
            error_text.as_deref(),
            Some("browser code-mode execution requires an almostnode host runtime shim")
        ),
        _ => panic!("code mode is unavailable"),
    }
    match session.wait(WaitRequest {
        cell_id: CellId::new("7".to_string()),
        yield_time_ms: 10,
    }) {
        Ok(WaitOutcome::MissingCell(RuntimeResponse::Result { error_text, .. })) => {
            assert_eq!(error_text.as_deref(), Some("exec cell 7 not found"))
        }
        _ => panic!("no cell keeps running"),
    }
}

#[test]
fn patch_paths_are_collected_sorted_and_unique() {
    let diff = "diff --git a/src/b.rs b/src/b.rs\n--- a/src/b.rs\n+++ b/src/b.rs\ndiff --git a/src/a.rs b/src/c.rs\n";
    let paths = extract_paths_from_patch(diff);
    assert_eq!(paths, vec!["src/a.rs".to_string(), "src/b.rs".to_string(), "src/c.rs".to_string()]);
    assert_eq!(normalize_diff_path("\"a/x.txt\"", "a/"), Some("x.txt".to_string()));
    assert_eq!(normalize_diff_path("a//dev/null", "a/"), None);
    assert_eq!(normalize_diff_path("b/x", "a/"), None);
}

#[test]
fn span_attributes_need_keys() {
    assert!(validate_span_attributes(&vec![("k".to_string(), "v".to_string())]).is_ok());
    assert_eq!(
        validate_span_attributes(&vec![("".to_string(), "v".to_string())]),
        Err("configured span attribute key must not be empty".to_string())
    );
}

#[test]
fn metric_totals_saturate() {
    let mut totals = RuntimeMetricTotals {
        count: u64::MAX - 1,
        duration_ms: 5,
    };
    totals.merge(RuntimeMetricTotals {
        count: 3,
        duration_ms: 7,
    });
    assert_eq!(totals.count, u64::MAX);
    assert_eq!(totals.duration_ms, 12);
    assert!(RuntimeMetricTotals::default().is_empty());
}

#[test]
fn bearer_tokens_are_the_only_mcp_auth() {
    let headers = vec![("Authorization".to_string(), "Bearer x".to_string())];
    assert!(has_authorization_header(Some(&headers)));
    assert!(!has_authorization_header(None));
    assert_eq!(browser_auth_state(None, Some(&headers), None), McpAuthState::BearerToken);
    assert_eq!(browser_auth_state(Some("TOKEN"), None, None), McpAuthState::BearerToken);
    assert_eq!(browser_auth_state(None, None, None), McpAuthState::Unsupported);
}
