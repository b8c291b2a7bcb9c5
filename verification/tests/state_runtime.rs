use codex_browser::git_utils::git_marker_path;
use codex_browser::git_utils::git_root_after_probe;
use codex_browser::git_utils::git_root_search_start;
use codex_browser::git_utils::GitRootStep;
use codex_browser::state::DirectionalThreadSpawnEdgeStatus;
use codex_browser::state::RemoteControlEnrollmentRecord;
use codex_browser::state::SortDirection;
use codex_browser::state::SortKey;
use codex_browser::state::ThreadGoalStatus;
use codex_browser::state_runtime::Anchor;
use codex_browser::state_runtime::StateRuntime;
use codex_browser::state_runtime::ThreadFilterOptions;
use codex_browser::table::Table;
use codex_browser::thread_metadata::apply_rollout_item;
use codex_browser::thread_metadata::rollout_item_affects_thread_metadata;
use codex_browser::thread_metadata::strip_user_message_prefix;
use codex_browser::thread_metadata::GitFacts;
use codex_browser::thread_metadata::RolloutItem;
use codex_browser::thread_metadata::SessionMetaFacts;
use codex_browser::thread_metadata::SessionSourceInfo;
use codex_browser::thread_metadata::ThreadMetadata;
use codex_browser::thread_metadata::ThreadMetadataBuilder;
use codex_browser::thread_metadata::TurnContextFacts;
use codex_browser::thread_metadata::UserMessageFacts;

fn builder(id: &str, created_at: i64) -> ThreadMetadataBuilder {
    ThreadMetadataBuilder::new(
        id.to_string(),
        format!("/home/.codex/sessions/{id}.jsonl"),
        created_at,
        SessionSourceInfo { name: "cli".to_string(), agent_path: None },
        "read-only".to_string(),
        "on-request".to_string(),
    )
}

fn thread(id: &str, created_at: i64, updated_at: i64, title: &str) -> ThreadMetadata {
    let mut b = builder(id, created_at);
    b.updated_at = Some(updated_at);
    b.cwd = "/work".to_string();
    let mut t = b.build("openai");
    t.title = title.to_string();
    t
}

fn filters<'a>(sources: &'a [String], key: SortKey, dir: SortDirection) -> ThreadFilterOptions<'a> {
    ThreadFilterOptions {
        archived_only: false,
        allowed_sources: sources,
        model_providers: None,
        cwd_filters: None,
        anchor: None,
        sort_key: key,
        sort_direction: dir,
        search_term: None,
    }
}

fn ids(items: &[ThreadMetadata]) -> Vec<&str> {
    items.iter().map(|t| t.id.as_str()).collect()
}

#[test]
fn table_keeps_one_row_per_key() {
    let mut t: Table<String> = Table::new();
    assert!(!t.insert("a".to_string(), "1".to_string()));
    assert!(!t.insert("b".to_string(), "2".to_string()));
    assert!(t.insert("a".to_string(), "3".to_string()));
    assert_eq!(t.len(), 2);
    assert_eq!(t.get("a"), Some(&"3".to_string()));
    assert_eq!(t.key_of(0), "a");
    assert_eq!(t.remove("a"), Some("3".to_string()));
    assert_eq!(t.get("a"), None);
    assert_eq!(t.remove("a"), None);
    assert_eq!(t.len(), 1);
}

#[test]
fn builder_fills_defaults() {
    let mut b = builder("t1", 1_000);
    b.source.agent_path = Some("/root/agent".to_string());
    let m = b.build("openai");
    assert_eq!(m.updated_at, 1_000);
    assert_eq!(m.model_provider, "openai");
    assert_eq!(m.agent_path.as_deref(), Some("/root/agent"));
    assert_eq!(m.cli_version, "");
    assert_eq!(m.sandbox_policy, "read-only");
    assert_eq!(m.title, "");
    b.model_provider = Some("azure".to_string());
    b.agent_path = Some("/explicit".to_string());
    let m = b.build("openai");
    assert_eq!(m.model_provider, "azure");
    assert_eq!(m.agent_path.as_deref(), Some("/explicit"));
}

#[test]
fn rollout_items_fill_the_record() {
    let mut m = builder("t1", 5).build("");
    apply_rollout_item(
        &mut m,
        &RolloutItem::SessionMeta(SessionMetaFacts {
            id: "t1".to_string(),
            source: "vscode".to_string(),
            thread_source: None,
            agent_nickname: Some("nick".to_string()),
            agent_role: None,
            agent_path: None,
            model_provider: Some("openai".to_string()),
            cli_version: "1.2.3".to_string(),
            cwd: "/repo".to_string(),
            git: Some(GitFacts {
                commit_hash: Some("abc".to_string()),
                branch: Some("main".to_string()),
                repository_url: None,
            }),
        }),
        "fallback",
    );
    assert_eq!(m.source, "vscode");
    assert_eq!(m.cli_version, "1.2.3");
    assert_eq!(m.cwd, "/repo");
    assert_eq!(m.git_sha.as_deref(), Some("abc"));
    assert_eq!(m.model_provider, "openai");

    apply_rollout_item(
        &mut m,
        &RolloutItem::TurnContext(TurnContextFacts {
            cwd: "/elsewhere".to_string(),
            model: "gpt-5".to_string(),
            effort: Some("high".to_string()),
            permission_profile: "{}".to_string(),
            approval_policy: "never".to_string(),
        }),
        "fallback",
    );
    assert_eq!(m.cwd, "/repo");
    assert_eq!(m.model.as_deref(), Some("gpt-5"));
    assert_eq!(m.approval_mode, "never");

    apply_rollout_item(&mut m, &RolloutItem::TokenCount(Some(-4)), "fallback");
    assert_eq!(m.tokens_used, 0);
    apply_rollout_item(&mut m, &RolloutItem::TokenCount(Some(42)), "fallback");
    assert_eq!(m.tokens_used, 42);

    apply_rollout_item(
        &mut m,
        &RolloutItem::UserMessage(UserMessageFacts {
            message: "context\n## My request for Codex:\n  fix the bug  ".to_string(),
            has_images: false,
        }),
        "fallback",
    );
    assert_eq!(m.first_user_message.as_deref(), Some("fix the bug"));
    assert_eq!(m.preview.as_deref(), Some("fix the bug"));
    assert_eq!(m.title, "fix the bug");

    apply_rollout_item(
        &mut m,
        &RolloutItem::UserMessage(UserMessageFacts { message: "second".to_string(), has_images: false }),
        "fallback",
    );
    assert_eq!(m.title, "fix the bug");
    assert!(rollout_item_affects_thread_metadata(&RolloutItem::TokenCount(None)));
    assert!(!rollout_item_affects_thread_metadata(&RolloutItem::Compacted));
}

#[test]
fn session_meta_of_another_thread_is_ignored_and_provider_defaults() {
    let mut m = builder("t1", 5).build("");
    apply_rollout_item(
        &mut m,
        &RolloutItem::SessionMeta(SessionMetaFacts {
            id: "other".to_string(),
            source: "vscode".to_string(),
            thread_source: None,
            agent_nickname: None,
            agent_role: None,
            agent_path: None,
            model_provider: None,
            cli_version: String::new(),
            cwd: String::new(),
            git: None,
        }),
        "fallback",
    );
    assert_eq!(m.source, "cli");
    assert_eq!(m.model_provider, "fallback");
}

#[test]
fn image_only_message_previews_as_placeholder() {
    let mut m = builder("t1", 5).build("p");
    apply_rollout_item(
        &mut m,
        &RolloutItem::UserMessage(UserMessageFacts { message: "   ".to_string(), has_images: true }),
        "p",
    );
    assert_eq!(m.preview.as_deref(), Some("[Image]"));
    assert_eq!(m.title, "");
    assert_eq!(strip_user_message_prefix("  plain "), "plain");
}

#[test]
fn merging_prefers_stored_git_info_and_explicit_title() {
    let mut stored = thread("t1", 1, 1, "Chosen name");
    stored.git_branch = Some("main".to_string());
    stored.first_user_message = Some("hello".to_string());
    let mut fresh = thread("t1", 1, 2, "hello");
    fresh.first_user_message = Some("hello".to_string());
    fresh.git_sha = Some("def".to_string());
    fresh.prefer_existing_git_info(&stored);
    assert_eq!(fresh.git_branch.as_deref(), Some("main"));
    assert_eq!(fresh.git_sha.as_deref(), Some("def"));
    fresh.prefer_existing_explicit_title(&stored);
    assert_eq!(fresh.title, "Chosen name");
    assert_eq!(fresh.diff_fields(&stored), vec!["updated_at", "git_sha"]);
}

#[test]
fn upsert_then_get_reads_back_and_delete_forgets() {
    let mut s = StateRuntime::init("/home/.codex".to_string(), "openai".to_string());
    assert_eq!(s.codex_home(), "/home/.codex");
    let t = thread("t1", 10, 20, "first");
    s.upsert_thread(&t);
    assert_eq!(s.get_thread("t1").map(|r| r.title), Some("first".to_string()));
    assert!(!s.insert_thread_if_absent(&thread("t1", 1, 1, "other")));
    assert!(s.insert_thread_if_absent(&thread("t2", 1, 1, "second")));
    assert!(s.update_thread_title("t2", "renamed"));
    assert!(!s.update_thread_title("missing", "x"));
    assert!(s.touch_thread_updated_at("t2", 99));
    assert_eq!(s.get_thread("t2").map(|r| (r.title, r.updated_at)), Some(("renamed".to_string(), 99)));
    assert!(s.set_thread_preview_if_empty("t1", "  look here "));
    assert!(!s.set_thread_preview_if_empty("t1", "again"));
    assert_eq!(s.get_thread("t1").and_then(|r| r.preview), Some("look here".to_string()));
    assert!(s.update_thread_git_info("t1", Some(Some("sha")), Some(None), None));
    assert_eq!(s.get_thread("t1").and_then(|r| r.git_sha), Some("sha".to_string()));
    s.mark_archived("t1", "/archive/t1.jsonl", 500);
    let r = s.get_thread("t1").unwrap();
    assert_eq!((r.archived_at, r.rollout_path.as_str()), (Some(500), "/archive/t1.jsonl"));
    s.mark_unarchived("t1", "/sessions/t1.jsonl");
    assert_eq!(s.get_thread("t1").unwrap().archived_at, None);
    assert_eq!(s.find_rollout_path_by_id("t1"), Some("/sessions/t1.jsonl".to_string()));
    assert_eq!(s.find_thread_by_exact_title("renamed").map(|r| r.id), Some("t2".to_string()));
    assert_eq!(s.delete_thread("t1"), 1);
    assert_eq!(s.delete_thread("t1"), 0);
    assert!(s.get_thread("t1").is_none());
}

#[test]
fn delete_thread_removes_its_goal() {
    let mut s = StateRuntime::init("/h".to_string(), "openai".to_string());
    s.upsert_thread(&thread("t1", 1, 1, "x"));
    assert!(s.thread_goals().get_thread_goal("t1").is_none());
    assert_eq!(s.delete_thread("t1"), 1);
    assert!(s.thread_goals().get_thread_goal("t1").is_none());
    let _ = ThreadGoalStatus::Active;
}

#[test]
fn listing_sorts_filters_and_pages() {
    let mut s = StateRuntime::init("/h".to_string(), "openai".to_string());
    s.upsert_thread(&thread("a", 30, 1, "Alpha"));
    s.upsert_thread(&thread("b", 10, 3, "Beta fix"));
    s.upsert_thread(&thread("c", 20, 2, "Gamma"));
    let none: Vec<String> = Vec::new();
    let page = s.list_threads(10, filters(&none, SortKey::CreatedAt, SortDirection::Asc));
    assert_eq!(ids(&page.items), vec!["b", "c", "a"]);
    assert_eq!(page.num_scanned_rows, 3);
    assert_eq!(page.next_anchor, None);

    let page = s.list_threads(2, filters(&none, SortKey::CreatedAt, SortDirection::Desc));
    assert_eq!(ids(&page.items), vec!["a", "c"]);
    assert_eq!(page.next_anchor, Some(Anchor { ts: 20 }));

    let anchor = Anchor { ts: 20 };
    let mut f = filters(&none, SortKey::CreatedAt, SortDirection::Desc);
    f.anchor = Some(&anchor);
    let page = s.list_threads(2, f);
    assert_eq!(ids(&page.items), vec!["b"]);

    let page = s.list_threads(10, filters(&none, SortKey::UpdatedAt, SortDirection::Desc));
    assert_eq!(ids(&page.items), vec!["b", "c", "a"]);

    let mut f = filters(&none, SortKey::CreatedAt, SortDirection::Asc);
    f.search_term = Some("FIX");
    assert_eq!(ids(&s.list_threads(10, f).items), vec!["b"]);

    let sources = vec!["exec".to_string()];
    assert!(s.list_threads(10, filters(&sources, SortKey::CreatedAt, SortDirection::Asc)).items.is_empty());

    let cwds = vec!["/work/".to_string()];
    let mut f = filters(&none, SortKey::CreatedAt, SortDirection::Asc);
    f.cwd_filters = Some(&cwds);
    assert_eq!(s.list_threads(10, f).items.len(), 3);

    let mut f = filters(&none, SortKey::CreatedAt, SortDirection::Asc);
    f.archived_only = true;
    assert!(s.list_threads(10, f).items.is_empty());

    assert_eq!(
        s.list_thread_ids(2, None, SortKey::CreatedAt, &none, None, false),
        vec!["a".to_string(), "c".to_string()]
    );
}

#[test]
fn page_of_zero_has_no_anchor() {
    let mut s = StateRuntime::init("/h".to_string(), "openai".to_string());
    s.upsert_thread(&thread("a", 30, 1, "Alpha"));
    let none: Vec<String> = Vec::new();
    let page = s.list_threads(0, filters(&none, SortKey::CreatedAt, SortDirection::Asc));
    assert!(page.items.is_empty());
    assert_eq!(page.next_anchor, None);
    assert_eq!(page.num_scanned_rows, 1);
}

#[test]
fn spawn_tree_children_and_descendants() {
    let mut s = StateRuntime::init("/h".to_string(), "openai".to_string());
    s.upsert_thread_spawn_edge("root", "c1", DirectionalThreadSpawnEdgeStatus::Open);
    s.upsert_thread_spawn_edge("root", "c2", DirectionalThreadSpawnEdgeStatus::Closed);
    s.upsert_thread_spawn_edge("c1", "g1", DirectionalThreadSpawnEdgeStatus::Open);
    assert_eq!(s.list_thread_spawn_children("root"), vec!["c1".to_string(), "c2".to_string()]);
    assert_eq!(
        s.list_thread_spawn_children_with_status("root", DirectionalThreadSpawnEdgeStatus::Open),
        vec!["c1".to_string()]
    );
    assert_eq!(
        s.list_thread_spawn_descendants("root"),
        vec!["c1".to_string(), "c2".to_string(), "g1".to_string()]
    );
    s.set_thread_spawn_edge_status("c2", DirectionalThreadSpawnEdgeStatus::Open);
    assert_eq!(
        s.list_thread_spawn_descendants_with_status("root", DirectionalThreadSpawnEdgeStatus::Open),
        vec!["c1".to_string(), "c2".to_string(), "g1".to_string()]
    );
    let mut agent = thread("g1", 1, 1, "worker");
    agent.agent_path = Some("/root/c1/g1".to_string());
    s.upsert_thread(&agent);
    assert_eq!(s.find_thread_spawn_descendant_by_path("root", "/root/c1/g1"), Some("g1".to_string()));
    assert_eq!(s.find_thread_spawn_child_by_path("root", "/root/c1/g1"), None);
}

#[test]
fn apply_rollout_items_builds_and_records_memory_mode() {
    let mut s = StateRuntime::init("/h".to_string(), "openai".to_string());
    let b = builder("t9", 7);
    s.apply_rollout_items(&b, &[], Some("enabled"), None);
    assert!(s.get_thread("t9").is_none());
    s.apply_rollout_items(
        &b,
        &[RolloutItem::UserMessage(UserMessageFacts { message: "hi".to_string(), has_images: false })],
        Some("enabled"),
        Some(70),
    );
    let t = s.get_thread("t9").unwrap();
    assert_eq!((t.title.as_str(), t.updated_at, t.model_provider.as_str()), ("hi", 70, "openai"));
    assert_eq!(s.get_thread_memory_mode("t9"), Some("enabled".to_string()));
    assert!(s.set_thread_memory_mode("t9", "disabled"));
    assert_eq!(s.get_thread_memory_mode("t9"), Some("disabled".to_string()));
}

#[test]
fn enrollments_are_kept_by_url_account_and_client() {
    let mut s = StateRuntime::init("/h".to_string(), "openai".to_string());
    let e = RemoteControlEnrollmentRecord {
        websocket_url: "wss://x".to_string(),
        account_id: "acct".to_string(),
        app_server_client_name: Some("cli".to_string()),
        server_id: "srv".to_string(),
        environment_id: "env".to_string(),
        server_name: "name".to_string(),
    };
    s.upsert_remote_control_enrollment(&e);
    assert_eq!(s.get_remote_control_enrollment("wss://x", "acct", Some("cli")), Some(e.clone()));
    assert_eq!(s.get_remote_control_enrollment("wss://x", "acct", None), None);
    assert_eq!(s.delete_remote_control_enrollment("wss://x", "acct", Some("cli")), 1);
    assert_eq!(s.delete_remote_control_enrollment("wss://x", "acct", Some("cli")), 0);
}

#[test]
fn host_operations_are_unsupported() {
    let s = StateRuntime::init("/h".to_string(), "openai".to_string());
    assert_eq!(
        s.mark_agent_job_running("job"),
        Err("codex-state operation `mark_agent_job_running` requires a browser persistence host shim".to_string())
    );
    assert!(!s.is_agent_job_cancelled("job"));
    assert!(!s.try_claim_backfill(60));
    assert_eq!(s.get_agent_job_progress("job").total_items, 0);
}

#[test]
fn git_root_search_walks_up() {
    assert_eq!(git_root_search_start("/a/b/file.rs", false), GitRootStep::Probe("/a/b".to_string()));
    assert_eq!(git_root_search_start("/a/b", true), GitRootStep::Probe("/a/b".to_string()));
    assert_eq!(git_marker_path("/a/b"), "/a/b/.git");
    assert_eq!(git_root_after_probe("/a/b", false), GitRootStep::Probe("/a".to_string()));
    assert_eq!(git_root_after_probe("/a", true), GitRootStep::Found("/a".to_string()));
    assert_eq!(git_root_after_probe("/", false), GitRootStep::NotFound);
}

#[test]
fn diff_fields_is_empty_for_equal_records_and_symmetric() {
    let a = thread("t1", 1, 1, "x");
    let mut b = thread("t1", 1, 1, "x");
    assert!(a.diff_fields(&b).is_empty());
    b.rollout_path = format!("{}/", a.rollout_path);
    assert!(a.diff_fields(&b).is_empty());
    b.title = "y".to_string();
    b.tokens_used = 5;
    assert_eq!(a.diff_fields(&b), vec!["title", "tokens_used"]);
    assert_eq!(a.diff_fields(&b), b.diff_fields(&a));
}
