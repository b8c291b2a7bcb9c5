use std::cell::RefCell;

use codex_browser::exec_process::host_process_spawn_request;
use codex_browser::exec_process::ProcessOutputState;
use codex_browser::process_registry::HostProcessEvent;
use codex_browser::process_registry::HostProcessRegistry;
use codex_browser::rollout::RolloutRecord;
use codex_browser::rollout::SessionMetaSummary;
use codex_browser::rollout::RolloutConfig;
use codex_browser::rollout_store::RolloutRecorder;
use codex_browser::rollout_store::RolloutStore;
use codex_browser::state::record_backfill_gate;
use codex_browser::state::record_fallback;
use codex_browser::state::backfill_gate_metrics;
use codex_browser::state::fallback_metrics;
use codex_browser::state::DbMetric;
use codex_browser::state::DbTelemetry;

fn delta(handle: &str, stream: &str, b64: &str) -> HostProcessEvent {
    HostProcessEvent::OutputDelta {
        process_handle: handle.to_string(),
        stream: stream.to_string(),
        delta_base64: b64.to_string(),
    }
}

#[test]
fn spawn_request_streams_stdin_for_a_terminal_or_a_pipe() {
    let argv = vec!["ls".to_string(), "-l".to_string()];
    let env = vec![("A".to_string(), "1".to_string())];
    let r = host_process_spawn_request("p1", &argv, "/work", &env, false, false);
    assert_eq!(r.process_handle, "p1");
    assert_eq!(r.command, argv);
    assert_eq!(r.cwd, "/work");
    assert_eq!(r.env, env);
    assert!(!r.stream_stdin);
    assert!(r.stream_stdout_stderr);
    assert!(host_process_spawn_request("p1", &argv, "/w", &env, true, false).stream_stdin);
    assert!(host_process_spawn_request("p1", &argv, "/w", &env, false, true).stream_stdin);
}

#[test]
fn registry_records_output_and_stops_processes() {
    let mut reg = HostProcessRegistry::new();
    reg.register("p1".to_string(), ProcessOutputState::new());
    assert!(!reg.handle_event(delta("nope", "stdout", "aGk=")).handled);
    assert!(!reg.handle_event(HostProcessEvent::Other).handled);
    let r = reg.handle_event(delta("p1", "pty", "aGk="));
    assert!(r.handled && r.stopped.is_none());
    assert_eq!(reg.lookup("p1").unwrap().next_seq(), 1);
    let r = reg.handle_event(delta("p1", "stdout", "aGk="));
    assert!(r.handled && r.stopped.is_none());
    let snap = reg.lookup("p1").unwrap().read_snapshot(None, None);
    assert_eq!(snap.chunks.len(), 1);
    assert_eq!(snap.chunks[0].chunk, b"hi".to_vec());
    let r = reg.handle_event(HostProcessEvent::Exited {
        process_handle: "p1".to_string(),
        stdout: "tail".to_string(),
        stderr: String::new(),
        exit_code: 3,
    });
    assert!(r.handled);
    let stopped = r.stopped.unwrap().read_snapshot(None, None);
    assert_eq!(stopped.exit_code, Some(3));
    assert!(stopped.closed);
    assert_eq!(stopped.chunks.len(), 2);
    assert!(reg.lookup("p1").is_none());
}

#[test]
fn bad_output_fails_and_stops_the_process() {
    let mut reg = HostProcessRegistry::new();
    reg.register("p2".to_string(), ProcessOutputState::new());
    let r = reg.handle_event(delta("p2", "stderr", "!!"));
    assert!(r.handled);
    let failed = r.stopped.unwrap().read_snapshot(None, None);
    assert!(failed.closed);
    assert!(failed.failure.unwrap().starts_with("invalid host process output delta: "));
    assert!(reg.unregister("p2").is_none());
}

struct Recorder {
    calls: RefCell<Vec<String>>,
}

impl DbTelemetry for Recorder {
    fn counter(&self, name: &str, inc: i64, _tags: &Vec<(String, String)>) {
        self.calls.borrow_mut().push(format!("{name}+{inc}"));
    }

    fn record_duration(&self, name: &str, duration_millis: u64, _tags: &Vec<(String, String)>) {
        self.calls.borrow_mut().push(format!("{name}={duration_millis}"));
    }
}

#[test]
fn telemetry_goes_to_the_given_or_else_the_installed_one() {
    let given = Recorder { calls: RefCell::new(Vec::new()) };
    let installed = Recorder { calls: RefCell::new(Vec::new()) };
    record_backfill_gate(Some(&given), Some(&installed), 12, true);
    assert_eq!(given.calls.borrow().len(), 2);
    assert!(installed.calls.borrow().is_empty());
    record_fallback("caller", "reason", None, Some(&installed));
    assert_eq!(installed.calls.borrow().len(), 1);
    record_backfill_gate::<Recorder>(None, None, 1, false);
}

#[test]
fn created_rollout_holds_its_header_and_resumes() {
    let mut store = RolloutStore::new();
    let meta = SessionMetaSummary {
        id: "67e55044-10b1-426f-9247-bb680e5fe0c8".to_string(),
        cwd: "/work".to_string(),
        source: "cli".to_string(),
        parent_thread_id: None,
        agent_nickname: None,
        agent_role: None,
        model_provider: Some("openai".to_string()),
        cli_version: "0.1.0".to_string(),
        timestamp: "2025-01-01T00:00:00.000Z".to_string(),
        memory_mode: None,
        history_mode: "full".to_string(),
    };
    let path = store.create_rollout("/home/.codex", meta);
    assert_eq!(
        path,
        "/home/.codex/sessions/browser-rollout-2025-01-01T00:00:00.000Z-67e55044-10b1-426f-9247-bb680e5fe0c8.jsonl"
    );
    let (items, id, _) = store.load_rollout_items(&path).unwrap();
    assert_eq!(items.len(), 1);
    assert!(matches!(&items[0], RolloutRecord::SessionMeta(m) if m.cwd == "/work"));
    assert_eq!(id.as_deref(), Some("67e55044-10b1-426f-9247-bb680e5fe0c8"));
    assert_eq!(
        store.resume_rollout(&path),
        Ok(RolloutRecorder { rollout_path: path.clone(), history_mode: "full".to_string() })
    );
    assert_eq!(
        store.resume_rollout("/missing.jsonl"),
        Err("browser rollout not found: /missing.jsonl".to_string())
    );
}

#[test]
fn rollout_for_a_config_records_its_cwd_provider_and_memory_mode() {
    let mut store = RolloutStore::new();
    let config = RolloutConfig {
        codex_home: "/home/.codex".to_string(),
        sqlite_home: "/home/.codex".to_string(),
        cwd: "/repo".to_string(),
        model_provider_id: "openai".to_string(),
        generate_memories: false,
    };
    let rec = store.create_rollout_for(
        &config,
        "id-1",
        None,
        "cli",
        Some("nick".to_string()),
        None,
        "0.1.0",
        "full",
        "2025-03-04T05:06:07.089Z",
    );
    assert_eq!(
        rec.rollout_path,
        "/home/.codex/sessions/browser-rollout-2025-03-04T05:06:07.089Z-id-1.jsonl"
    );
    let meta = store.read_session_meta_line(&rec.rollout_path).unwrap();
    assert_eq!(meta.cwd, "/repo");
    assert_eq!(meta.model_provider.as_deref(), Some("openai"));
    assert_eq!(meta.memory_mode.as_deref(), Some("disabled"));
    assert_eq!(meta.agent_nickname.as_deref(), Some("nick"));
    let now = store.create_rollout_now(&config, "id-2", None, "cli", None, None, "0.1.0", "full");
    assert!(now.rollout_path.starts_with("/home/.codex/sessions/browser-rollout-"));
    assert!(now.rollout_path.ends_with("-id-2.jsonl"));
    assert_eq!(store.resume_rollout(&now.rollout_path).unwrap().history_mode, "full");
}

#[test]
fn database_reports_carry_their_names_and_tags() {
    let gate = backfill_gate_metrics(7, false);
    assert_eq!(gate.len(), 2);
    match &gate[0] {
        DbMetric::Counter { name, inc, tags } => {
            assert_eq!(name, "codex.sqlite.init.count");
            assert_eq!(*inc, 1);
            assert_eq!(tags, &vec![("status".to_string(), "failed".to_string())]);
        }
        other => panic!("unexpected {other:?}"),
    }
    match &gate[1] {
        DbMetric::Duration { name, millis, tags } => {
            assert_eq!(name, "codex.sqlite.init.duration_ms");
            assert_eq!(*millis, 7);
            assert_eq!(tags, &vec![("status".to_string(), "failed".to_string())]);
        }
        other => panic!("unexpected {other:?}"),
    }
    let fallback = fallback_metrics("list_threads", "db_unavailable");
    match &fallback[..] {
        [DbMetric::Counter { name, inc, tags }] => {
            assert_eq!(name, "codex.sqlite.fallback.count");
            assert_eq!(*inc, 1);
            assert_eq!(
                tags,
                &vec![
                    ("caller".to_string(), "list_threads".to_string()),
                    ("reason".to_string(), "db_unavailable".to_string()),
                ]
            );
        }
        other => panic!("unexpected {other:?}"),
    }
    let recorder = Recorder { calls: RefCell::new(Vec::new()) };
    record_backfill_gate(Some(&recorder), None, 12, true);
    assert_eq!(
        *recorder.calls.borrow(),
        vec![
            "codex.sqlite.init.count+1".to_string(),
            "codex.sqlite.init.duration_ms=12".to_string(),
        ]
    );
}
