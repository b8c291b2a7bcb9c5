use codex_browser::rollout::RolloutRecord;
use codex_browser::rollout::SessionMetaSummary;
use codex_browser::rollout::ThreadSortKey;
use codex_browser::rollout_store::RolloutStore;

const ID_A: &str = "67e55044-10b1-426f-9247-bb680e5fe0c8";
const ID_B: &str = "0f8fad5b-d9cb-469f-a165-70867728950e";
const HOME: &str = "/home/.codex";

fn meta(id: &str, timestamp: &str) -> SessionMetaSummary {
    SessionMetaSummary {
        id: id.to_string(),
        cwd: "/work".to_string(),
        source: "cli".to_string(),
        parent_thread_id: None,
        agent_nickname: None,
        agent_role: None,
        model_provider: Some("openai".to_string()),
        cli_version: "0.1.0".to_string(),
        timestamp: timestamp.to_string(),
        memory_mode: None,
        history_mode: "full".to_string(),
    }
}

fn store() -> RolloutStore {
    let mut s = RolloutStore::new();
    s.append_rollout_item_to_path(
        "/home/.codex/sessions/a.jsonl",
        RolloutRecord::SessionMeta(meta(ID_A, "2025-01-01T00:00:00Z")),
    );
    s.append_rollout_item_to_path("/home/.codex/sessions/a.jsonl", RolloutRecord::Other);
    s.append_rollout_item_to_path(
        "/home/.codex/sessions/b.jsonl",
        RolloutRecord::SessionMeta(meta(ID_B, "2025-02-01T00:00:00Z")),
    );
    s
}

#[test]
fn appended_lines_are_loaded_back() {
    let s = store();
    let (items, id, skipped) = s.load_rollout_items("/home/.codex/sessions/a.jsonl").unwrap();
    assert_eq!(items.len(), 2);
    assert!(matches!(items[1], RolloutRecord::Other));
    assert_eq!(id.as_deref(), Some(ID_A));
    assert_eq!(skipped, 0);
    assert_eq!(
        s.load_rollout_items("/nowhere.jsonl").err(),
        Some("browser rollout not found: /nowhere.jsonl".to_string())
    );
    assert_eq!(
        s.existing_rollout_path("/home/.codex/sessions/b.jsonl"),
        Some("/home/.codex/sessions/b.jsonl".to_string())
    );
    assert_eq!(s.existing_rollout_path("/home/.codex/sessions/c.jsonl"), None);
}

#[test]
fn session_header_is_read_or_missing() {
    let mut s = store();
    assert_eq!(s.read_session_meta_line("/home/.codex/sessions/b.jsonl").map(|m| m.id), Ok(ID_B.to_string()));
    s.append_rollout_item_to_path("/home/.codex/sessions/c.jsonl", RolloutRecord::Other);
    assert_eq!(
        s.read_session_meta_line("/home/.codex/sessions/c.jsonl").map(|m| m.id),
        Err("browser rollout metadata not found: /home/.codex/sessions/c.jsonl".to_string())
    );
    assert!(s.read_thread_item_from_rollout("/home/.codex/sessions/c.jsonl".to_string()).is_none());
    let item = s.read_thread_item_from_rollout("/home/.codex/sessions/a.jsonl".to_string()).unwrap();
    assert_eq!(item.thread_id.as_deref(), Some(ID_A));
}

#[test]
fn thread_paths_are_found_by_parsed_id() {
    let s = store();
    assert_eq!(
        s.find_thread_path_by_id_str(HOME, &ID_A.to_uppercase()),
        Some("/home/.codex/sessions/a.jsonl".to_string())
    );
    assert_eq!(s.find_thread_path_by_id_str(HOME, "not-a-uuid"), None);
    assert_eq!(s.find_thread_path_by_id_str("/elsewhere", ID_A), None);
}

#[test]
fn thread_names_round_trip() {
    let mut s = store();
    s.append_thread_name(HOME, ID_A, "fix bug");
    assert_eq!(s.find_thread_name_by_id(HOME, ID_A), Some("fix bug".to_string()));
    assert_eq!(
        s.find_thread_names_by_ids(HOME, &vec![ID_A.to_string(), ID_B.to_string()]),
        vec![(ID_A.to_string(), "fix bug".to_string())]
    );
    let found = s.find_thread_meta_by_name_str(HOME, "fix bug").unwrap().unwrap();
    assert_eq!(found.0, "/home/.codex/sessions/a.jsonl");
    assert_eq!(found.1.id, ID_A);
    assert!(s.find_thread_meta_by_name_str(HOME, "other").unwrap().is_none());
    s.remove_thread_name_entries(HOME, ID_A);
    assert_eq!(s.find_thread_name_by_id(HOME, ID_A), None);
}

#[test]
fn stored_threads_list_newest_first() {
    let s = store();
    let none: Vec<String> = Vec::new();
    let page = s.get_threads(HOME, 10, None, ThreadSortKey::CreatedAt, &none, None, None, "openai");
    let ids: Vec<_> = page.items.iter().map(|t| t.thread_id.clone().unwrap()).collect();
    assert_eq!(ids, vec![ID_B.to_string(), ID_A.to_string()]);
    assert_eq!(
        s.find_latest_thread_path(HOME, 10, None, ThreadSortKey::CreatedAt, &none, None, "openai", Some("/work")),
        Some("/home/.codex/sessions/b.jsonl".to_string())
    );
    assert_eq!(
        s.find_latest_thread_path(HOME, 10, None, ThreadSortKey::CreatedAt, &none, None, "openai", Some("/other")),
        None
    );
}
