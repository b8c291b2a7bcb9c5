use codex_browser::state::fallback_tags;
use codex_browser::state::remote_control_key;
use codex_browser::state::runtime_db_paths;
use codex_browser::state::saturating_add_i64;
use codex_browser::state::state_db_path;
use codex_browser::state::AgentJobItemStatus;
use codex_browser::state::AgentJobStatus;
use codex_browser::state::BackfillStatus;
use codex_browser::state::GoalAccountingMode;
use codex_browser::state::GoalAccountingOutcome;
use codex_browser::state::GoalStore;
use codex_browser::state::GoalUpdate;
use codex_browser::state::ThreadGoalStatus;

#[test]
fn statuses_round_trip_through_their_text() {
    for s in [
        AgentJobStatus::Pending,
        AgentJobStatus::Running,
        AgentJobStatus::Completed,
        AgentJobStatus::Failed,
        AgentJobStatus::Cancelled,
    ] {
        assert_eq!(AgentJobStatus::parse(s.as_str()), Ok(s));
    }
    assert_eq!(
        AgentJobStatus::parse("paused"),
        Err("invalid agent job status: paused".to_string())
    );
    assert!(AgentJobStatus::Completed.is_final());
    assert!(!AgentJobStatus::Running.is_final());
    assert!(AgentJobItemStatus::parse("bogus").is_err());
    assert!(BackfillStatus::parse("bogus").is_err());
    assert_eq!(ThreadGoalStatus::try_from_str("budget_limited"), Ok(ThreadGoalStatus::BudgetLimited));
    assert!(ThreadGoalStatus::try_from_str("done").is_err());
    assert!(ThreadGoalStatus::Complete.is_terminal());
    assert!(ThreadGoalStatus::Active.is_active());
}

#[test]
fn goal_read_after_write_and_delete() {
    let mut store = GoalStore::new();
    assert!(store.get_thread_goal("t1").is_none());
    let goal = store.replace_thread_goal("t1", "ship it", ThreadGoalStatus::Active, Some(100));
    assert_eq!(goal.thread_id, "t1");
    assert_eq!(goal.goal_id.len(), 36);
    let read = store.get_thread_goal("t1").unwrap();
    assert_eq!(read, goal);
    assert!(store.insert_thread_goal("t1", "other", ThreadGoalStatus::Active, None).is_none());
    assert_eq!(store.get_thread_goal("t1").unwrap().objective, "ship it");
    assert!(store.delete_thread_goal("t1"));
    assert!(store.get_thread_goal("t1").is_none());
    assert!(!store.delete_thread_goal("t1"));
}

#[test]
fn usage_is_charged_until_the_budget_is_spent() {
    let mut store = GoalStore::new();
    store.replace_thread_goal("t", "goal", ThreadGoalStatus::Active, Some(100));
    match store.account_thread_goal_usage("t", 5, 60, GoalAccountingMode::ActiveOnly, None) {
        GoalAccountingOutcome::Updated(g) => {
            assert_eq!(g.tokens_used, 60);
            assert_eq!(g.time_used_seconds, 5);
            assert_eq!(g.status, ThreadGoalStatus::Active);
        }
        _ => panic!("an active goal is charged"),
    }
    match store.account_thread_goal_usage("t", 1, 40, GoalAccountingMode::ActiveOnly, None) {
        GoalAccountingOutcome::Updated(g) => {
            assert_eq!(g.tokens_used, 100);
            assert_eq!(g.status, ThreadGoalStatus::BudgetLimited);
        }
        _ => panic!("the charge reaches the budget"),
    }
    match store.account_thread_goal_usage("t", 1, 1, GoalAccountingMode::ActiveOnly, None) {
        GoalAccountingOutcome::Unchanged(Some(g)) => assert_eq!(g.tokens_used, 100),
        _ => panic!("a budget-limited goal is not charged when only active goals are"),
    }
    match store.account_thread_goal_usage("t", -3, -7, GoalAccountingMode::ActiveOrStopped, None) {
        GoalAccountingOutcome::Updated(g) => {
            assert_eq!(g.tokens_used, 100);
            assert_eq!(g.time_used_seconds, 6);
        }
        _ => panic!("negative deltas charge nothing"),
    }
    match store.account_thread_goal_usage("t", 1, 1, GoalAccountingMode::ActiveOrStopped, Some("other-id")) {
        GoalAccountingOutcome::Unchanged(Some(_)) => {}
        _ => panic!("another goal id is left alone"),
    }
    assert!(matches!(
        store.account_thread_goal_usage("missing", 1, 1, GoalAccountingMode::ActiveOrStopped, None),
        GoalAccountingOutcome::Unchanged(None)
    ));
}

#[test]
fn updates_respect_the_expected_goal() {
    let mut store = GoalStore::new();
    let goal = store.replace_thread_goal("t", "goal", ThreadGoalStatus::Active, None);
    let update = GoalUpdate {
        objective: Some("new goal".to_string()),
        status: Some(ThreadGoalStatus::Paused),
        token_budget: None,
        expected_goal_id: Some("wrong".to_string()),
    };
    assert!(store.update_thread_goal("t", update).is_none());
    let update = GoalUpdate {
        objective: Some("new goal".to_string()),
        status: Some(ThreadGoalStatus::Paused),
        token_budget: None,
        expected_goal_id: Some(goal.goal_id.clone()),
    };
    let updated = store.update_thread_goal("t", update).unwrap();
    assert_eq!(updated.objective, "new goal");
    assert_eq!(updated.status, ThreadGoalStatus::Paused);
    assert_eq!(store.get_thread_goal("t").unwrap().objective, "new goal");
}

#[test]
fn pausing_and_usage_limits_set_the_status() {
    let mut store = GoalStore::new();
    store.replace_thread_goal("t", "goal", ThreadGoalStatus::Active, None);
    let paused = store.pause_active_thread_goal("t").unwrap();
    assert_eq!(paused.status, ThreadGoalStatus::Paused);
    let limited = store.usage_limit_active_thread_goal("t").unwrap();
    assert_eq!(limited.status, ThreadGoalStatus::UsageLimited);
    assert!(store.pause_active_thread_goal("missing").is_none());
}

#[test]
fn saturating_addition_clamps() {
    assert_eq!(saturating_add_i64(i64::MAX, 1), i64::MAX);
    assert_eq!(saturating_add_i64(i64::MIN, -1), i64::MIN);
    assert_eq!(saturating_add_i64(2, 3), 5);
}

#[test]
fn database_paths_and_keys() {
    assert_eq!(state_db_path("/home/.codex"), "/home/.codex/state_5.sqlite");
    assert_eq!(state_db_path("/home/.codex/"), "/home/.codex/state_5.sqlite");
    let paths = runtime_db_paths("/h");
    assert_eq!(paths.len(), 4);
    assert_eq!(paths[1].path, "/h/logs_2.sqlite");
    assert_eq!(
        remote_control_key("wss://x", "acct", Some("tui")),
        "wss://x\nacct\ntui"
    );
    assert_eq!(remote_control_key("wss://x", "acct", None), "wss://x\nacct\n");
    let tags = fallback_tags("list", "missing");
    assert_eq!(tags.len(), 2);
}
