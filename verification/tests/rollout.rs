use codex_browser::rollout::filter_page;
use codex_browser::rollout::get_threads;
use codex_browser::rollout::list_threads;
use codex_browser::rollout::normalize_cwd_for_state_db;
use codex_browser::rollout::parse_cursor;
use codex_browser::rollout::plain_rollout_path;
use codex_browser::rollout::rollout_date_parts;
use codex_browser::rollout::thread_item;
use codex_browser::rollout::LocalThreadStoreConfig;
use codex_browser::rollout::RolloutConfig;
use codex_browser::rollout::RolloutLineReader;
use codex_browser::rollout::RolloutRecord;
use codex_browser::rollout::SessionMetaSummary;
use codex_browser::rollout::SortDirection;
use codex_browser::rollout::ThreadSortKey;
use codex_browser::rollout::ThreadsPage;

fn meta(id: &str, cwd: &str, source: &str, provider: &str, timestamp: &str) -> SessionMetaSummary {
    SessionMetaSummary {
        id: id.to_string(),
        cwd: cwd.to_string(),
        source: source.to_string(),
        parent_thread_id: None,
        agent_nickname: None,
        agent_role: None,
        model_provider: Some(provider.to_string()),
        cli_version: "0.1.0".to_string(),
        timestamp: timestamp.to_string(),
        memory_mode: None,
        history_mode: "full".to_string(),
    }
}

fn entry(path: &str, m: SessionMetaSummary) -> (String, Vec<RolloutRecord>) {
    (
        path.to_string(),
        vec![RolloutRecord::Other, RolloutRecord::SessionMeta(m)],
    )
}

fn sample() -> Vec<(String, Vec<RolloutRecord>)> {
    vec![
        entry("/home/.codex/sessions/a.jsonl", meta("a", "/work", "cli", "openai", "2025-01-02")),
        entry("/home/.codex/sessions/b.jsonl", meta("b", "/work", "vscode", "openai", "2025-01-03")),
        entry("/home/.codex/sessions/c.jsonl", meta("c", "/other", "cli", "azure", "2025-01-01")),
        entry("/elsewhere/d.jsonl", meta("d", "/work", "cli", "openai", "2025-01-04")),
        ("/home/.codex/sessions/e.jsonl".to_string(), vec![RolloutRecord::Other]),
    ]
}

fn ids(page: &ThreadsPage) -> Vec<String> {
    page.items
        .iter()
        .map(|item| item.thread_id.clone().unwrap())
        .collect()
}

#[test]
fn lists_threads_under_home_newest_first() {
    let entries = sample();
    let page = get_threads(&entries, "/home/.codex", 10, None, ThreadSortKey::CreatedAt, &Vec::new(), None, None, "openai");
    assert_eq!(ids(&page), vec!["b", "a", "c"]);
    assert_eq!(page.num_scanned_files, 3);
    assert!(page.next_cursor.is_none());
    assert!(!page.reached_scan_cap);
}

#[test]
fn pages_continue_where_the_cursor_points() {
    let entries = sample();
    let first = get_threads(&entries, "/home/.codex", 2, None, ThreadSortKey::CreatedAt, &Vec::new(), None, None, "openai");
    assert_eq!(ids(&first), vec!["b", "a"]);
    let cursor = first.next_cursor.expect("more threads follow");
    assert_eq!(cursor.offset(), 2);
    assert_eq!(cursor.to_token(), "2");
    let second = get_threads(&entries, "/home/.codex", 2, Some(&cursor), ThreadSortKey::CreatedAt, &Vec::new(), None, None, "openai");
    assert_eq!(ids(&second), vec!["c"]);
    assert!(second.next_cursor.is_none());
    let past = parse_cursor("9").unwrap();
    let empty = get_threads(&entries, "/home/.codex", 2, Some(&past), ThreadSortKey::CreatedAt, &Vec::new(), None, None, "openai");
    assert!(empty.items.is_empty());
}

#[test]
fn filters_by_source_provider_and_directory() {
    let entries = sample();
    let sources = vec!["cli".to_string()];
    let page = get_threads(&entries, "/home/.codex", 10, None, ThreadSortKey::CreatedAt, &sources, None, None, "openai");
    assert_eq!(ids(&page), vec!["a", "c"]);
    let providers = vec!["azure".to_string()];
    let page = get_threads(&entries, "/home/.codex", 10, None, ThreadSortKey::CreatedAt, &Vec::new(), Some(&providers), None, "openai");
    assert_eq!(ids(&page), vec!["c"]);
    let cwds = vec!["/work/".to_string()];
    let page = get_threads(&entries, "/home/.codex", 10, None, ThreadSortKey::CreatedAt, &Vec::new(), None, Some(&cwds), "openai");
    assert_eq!(ids(&page), vec!["b", "a"]);
}

#[test]
fn equal_creation_times_keep_their_order() {
    let entries = vec![
        entry("/h/x", meta("x", "/w", "cli", "openai", "2025")),
        entry("/h/y", meta("y", "/w", "cli", "openai", "2025")),
        entry("/h/z", meta("z", "/w", "cli", "openai", "2026")),
    ];
    let page = get_threads(&entries, "/h", 10, None, ThreadSortKey::CreatedAt, &Vec::new(), None, None, "openai");
    assert_eq!(ids(&page), vec!["z", "x", "y"]);
}

#[test]
fn search_and_ascending_order() {
    let entries = sample();
    let page = get_threads(&entries, "/home/.codex", 10, None, ThreadSortKey::CreatedAt, &Vec::new(), None, None, "openai");
    let mut page = page;
    page.items[0].preview = Some("Fix the PARSER".to_string());
    page.items[1].first_user_message = Some("write docs".to_string());
    let searched = filter_page(page, SortDirection::Desc, Some("parser"));
    assert_eq!(ids(&searched), vec!["b"]);
    let listed = list_threads(&entries, "/home/.codex", 10, None, ThreadSortKey::CreatedAt, SortDirection::Asc, &Vec::new(), None, None, "openai", None);
    assert_eq!(ids(&listed), vec!["c", "a", "b"]);
}

#[test]
fn thread_item_comes_from_the_first_session_header() {
    let records = vec![
        RolloutRecord::Other,
        RolloutRecord::SessionMeta(meta("first", "/w", "cli", "openai", "t1")),
        RolloutRecord::SessionMeta(meta("second", "/v", "cli", "openai", "t2")),
    ];
    let item = thread_item("/p".to_string(), &records).unwrap();
    assert_eq!(item.thread_id.as_deref(), Some("first"));
    assert_eq!(item.created_at.as_deref(), Some("t1"));
    assert_eq!(item.updated_at.as_deref(), Some("t1"));
    assert_eq!(item.cwd.as_deref(), Some("/w"));
    assert_eq!(item.path, "/p");
    assert!(item.preview.is_none());
    assert!(thread_item("/q".to_string(), &vec![RolloutRecord::Other]).is_none());
}

#[test]
fn cursors_parse_as_offsets() {
    assert_eq!(parse_cursor("42").unwrap().offset(), 42);
    assert_eq!(parse_cursor("+7").unwrap().offset(), 7);
    assert!(parse_cursor("").is_none());
    assert!(parse_cursor("-1").is_none());
    assert!(parse_cursor("4x").is_none());
    assert!(parse_cursor("99999999999999999999999").is_none());
    let token = parse_cursor("1234").unwrap().to_token();
    assert_eq!(parse_cursor(&token).unwrap().offset(), 1234);
}

#[test]
fn date_parts_of_rollout_names() {
    assert_eq!(
        rollout_date_parts("rollout-2025-03-14T10-00-00-abc.jsonl"),
        Some(("2025".to_string(), "03".to_string(), "14".to_string()))
    );
    assert_eq!(rollout_date_parts("session-2025-03-14.jsonl"), None);
    assert_eq!(rollout_date_parts("rollout-2025-03"), None);
    assert_eq!(rollout_date_parts("rollout-2025é03-14x"), None);
    assert_eq!(
        rollout_date_parts("rollout-2025-é-14"),
        Some(("2025".to_string(), "é".to_string(), "14".to_string()))
    );
}

#[test]
fn paths_and_configuration_pass_through() {
    assert_eq!(plain_rollout_path("/a/b.jsonl"), "/a/b.jsonl");
    assert_eq!(normalize_cwd_for_state_db("/w/./x"), "/w/./x");
    let config = RolloutConfig {
        codex_home: "/home/.codex".to_string(),
        sqlite_home: "/home/.sqlite".to_string(),
        cwd: "/w".to_string(),
        model_provider_id: "openai".to_string(),
        generate_memories: true,
    };
    let copy = RolloutConfig::from_view(&config);
    assert_eq!(copy.codex_home, "/home/.codex");
    assert_eq!(copy.model_provider_id, "openai");
    assert!(copy.generate_memories);
    let store = LocalThreadStoreConfig::from_config(&config);
    assert_eq!(store.sqlite_home, "/home/.sqlite");
    assert_eq!(store.default_model_provider_id, "openai");
    let mut reader = RolloutLineReader;
    assert!(reader.next_line().is_none());
}
