use vstd::prelude::*;

use crate::browser_cli::cat2;
use crate::browser_cli::cat3;
use crate::browser_cli::clone_string;
use crate::text::ends_with;
use crate::text::ends_with_seq;
use crate::text::owned;
use crate::text::str_eq;

verus! {

// ---------------------------------------------------------------------------
// Statuses stored as text
// ---------------------------------------------------------------------------

#[derive(Debug, Clone, Copy, PartialEq, Eq, Structural)]
pub enum AgentJobStatus {
    Pending,
    Running,
    Completed,
    Failed,
    Cancelled,
}

pub open spec fn agent_job_status_text(s: AgentJobStatus) -> Seq<char> {
    match s {
        AgentJobStatus::Pending => "pending"@,
        AgentJobStatus::Running => "running"@,
        AgentJobStatus::Completed => "completed"@,
        AgentJobStatus::Failed => "failed"@,
        AgentJobStatus::Cancelled => "cancelled"@,
    }
}

impl AgentJobStatus {
    pub fn as_str(self) -> (r: &'static str)
        ensures
            r@ == agent_job_status_text(self),
    {
        match self {
            AgentJobStatus::Pending => "pending",
            AgentJobStatus::Running => "running",
            AgentJobStatus::Completed => "completed",
            AgentJobStatus::Failed => "failed",
            AgentJobStatus::Cancelled => "cancelled",
        }
    }

    /// The status whose text is `value`; any other text is refused with a
    /// message that names it.
    pub fn parse(value: &str) -> (r: Result<AgentJobStatus, String>)
        ensures
            match r {
                Ok(s) => agent_job_status_text(s) == value@,
                Err(m) => (forall|s: AgentJobStatus| agent_job_status_text(s) != value@) && m@
                    == "invalid agent job status: "@ + value@,
            },
    {
        if str_eq(value, "pending") {
            Ok(AgentJobStatus::Pending)
        } else if str_eq(value, "running") {
            Ok(AgentJobStatus::Running)
        } else if str_eq(value, "completed") {
            Ok(AgentJobStatus::Completed)
        } else if str_eq(value, "failed") {
            Ok(AgentJobStatus::Failed)
        } else if str_eq(value, "cancelled") {
            Ok(AgentJobStatus::Cancelled)
        } else {
            Err(cat2("invalid agent job status: ", value))
        }
    }

    /// Completed, failed and cancelled jobs are final.
    pub fn is_final(self) -> (r: bool)
        ensures
            r == (self == AgentJobStatus::Completed || self == AgentJobStatus::Failed || self
                == AgentJobStatus::Cancelled),
    {
        match self {
            AgentJobStatus::Completed | AgentJobStatus::Failed | AgentJobStatus::Cancelled => true,
            _ => false,
        }
    }
}

#[derive(Debug, Clone, Copy, PartialEq, Eq, Structural)]
pub enum AgentJobItemStatus {
    Pending,
    Running,
    Completed,
    Failed,
}

pub open spec fn agent_job_item_status_text(s: AgentJobItemStatus) -> Seq<char> {
    match s {
        AgentJobItemStatus::Pending => "pending"@,
        AgentJobItemStatus::Running => "running"@,
        AgentJobItemStatus::Completed => "completed"@,
        AgentJobItemStatus::Failed => "failed"@,
    }
}

impl AgentJobItemStatus {
    pub fn as_str(self) -> (r: &'static str)
        ensures
            r@ == agent_job_item_status_text(self),
    {
        match self {
            AgentJobItemStatus::Pending => "pending",
            AgentJobItemStatus::Running => "running",
            AgentJobItemStatus::Completed => "completed",
            AgentJobItemStatus::Failed => "failed",
        }
    }

    pub fn parse(value: &str) -> (r: Result<AgentJobItemStatus, String>)
        ensures
            match r {
                Ok(s) => agent_job_item_status_text(s) == value@,
                Err(m) => (forall|s: AgentJobItemStatus| agent_job_item_status_text(s) != value@)
                    && m@ == "invalid agent job item status: "@ + value@,
            },
    {
        if str_eq(value, "pending") {
            Ok(AgentJobItemStatus::Pending)
        } else if str_eq(value, "running") {
            Ok(AgentJobItemStatus::Running)
        } else if str_eq(value, "completed") {
            Ok(AgentJobItemStatus::Completed)
        } else if str_eq(value, "failed") {
            Ok(AgentJobItemStatus::Failed)
        } else {
            Err(cat2("invalid agent job item status: ", value))
        }
    }
}

#[derive(Debug, Clone, Copy, PartialEq, Eq, Structural)]
pub enum BackfillStatus {
    Pending,
    Running,
    Complete,
}

pub open spec fn backfill_status_text(s: BackfillStatus) -> Seq<char> {
    match s {
        BackfillStatus::Pending => "pending"@,
        BackfillStatus::Running => "running"@,
        BackfillStatus::Complete => "complete"@,
    }
}

impl BackfillStatus {
    pub fn as_str(self) -> (r: &'static str)
        ensures
            r@ == backfill_status_text(self),
    {
        match self {
            BackfillStatus::Pending => "pending",
            BackfillStatus::Running => "running",
            BackfillStatus::Complete => "complete",
        }
    }

    pub fn parse(value: &str) -> (r: Result<BackfillStatus, String>)
        ensures
            match r {
                Ok(s) => backfill_status_text(s) == value@,
                Err(m) => (forall|s: BackfillStatus| backfill_status_text(s) != value@) && m@
                    == "invalid backfill status: "@ + value@,
            },
    {
        if str_eq(value, "pending") {
            Ok(BackfillStatus::Pending)
        } else if str_eq(value, "running") {
            Ok(BackfillStatus::Running)
        } else if str_eq(value, "complete") {
            Ok(BackfillStatus::Complete)
        } else {
            Err(cat2("invalid backfill status: ", value))
        }
    }
}

#[derive(Debug, Clone, Copy, PartialEq, Eq, Structural)]
pub enum DirectionalThreadSpawnEdgeStatus {
    Open,
    Closed,
}

pub open spec fn spawn_edge_status_text(s: DirectionalThreadSpawnEdgeStatus) -> Seq<char> {
    match s {
        DirectionalThreadSpawnEdgeStatus::Open => "open"@,
        DirectionalThreadSpawnEdgeStatus::Closed => "closed"@,
    }
}

impl DirectionalThreadSpawnEdgeStatus {
    pub fn as_str(self) -> (r: &'static str)
        ensures
            r@ == spawn_edge_status_text(self),
    {
        match self {
            DirectionalThreadSpawnEdgeStatus::Open => "open",
            DirectionalThreadSpawnEdgeStatus::Closed => "closed",
        }
    }

    pub fn parse(value: &str) -> (r: Option<DirectionalThreadSpawnEdgeStatus>)
        ensures
            match r {
                Some(s) => spawn_edge_status_text(s) == value@,
                None => forall|s: DirectionalThreadSpawnEdgeStatus| spawn_edge_status_text(s)
                    != value@,
            },
    {
        if str_eq(value, "open") {
            Some(DirectionalThreadSpawnEdgeStatus::Open)
        } else if str_eq(value, "closed") {
            Some(DirectionalThreadSpawnEdgeStatus::Closed)
        } else {
            None
        }
    }
}

#[derive(Debug, Clone, Copy, PartialEq, Eq, Structural)]
pub enum ThreadGoalStatus {
    Active,
    Paused,
    Blocked,
    UsageLimited,
    BudgetLimited,
    Complete,
}

pub open spec fn goal_status_text(s: ThreadGoalStatus) -> Seq<char> {
    match s {
        ThreadGoalStatus::Active => "active"@,
        ThreadGoalStatus::Paused => "paused"@,
        ThreadGoalStatus::Blocked => "blocked"@,
        ThreadGoalStatus::UsageLimited => "usage_limited"@,
        ThreadGoalStatus::BudgetLimited => "budget_limited"@,
        ThreadGoalStatus::Complete => "complete"@,
    }
}

impl ThreadGoalStatus {
    pub fn as_str(self) -> (r: &'static str)
        ensures
            r@ == goal_status_text(self),
    {
        match self {
            ThreadGoalStatus::Active => "active",
            ThreadGoalStatus::Paused => "paused",
            ThreadGoalStatus::Blocked => "blocked",
            ThreadGoalStatus::UsageLimited => "usage_limited",
            ThreadGoalStatus::BudgetLimited => "budget_limited",
            ThreadGoalStatus::Complete => "complete",
        }
    }

    pub fn is_active(self) -> (r: bool)
        ensures
            r == (self == ThreadGoalStatus::Active),
    {
        self == ThreadGoalStatus::Active
    }

    /// A goal that ran out of budget or is complete takes no more work.
    pub fn is_terminal(self) -> (r: bool)
        ensures
            r == (self == ThreadGoalStatus::BudgetLimited || self == ThreadGoalStatus::Complete),
    {
        self == ThreadGoalStatus::BudgetLimited || self == ThreadGoalStatus::Complete
    }

    /// The status whose text is `value` (`TryFrom<&str>`).
    pub fn try_from_str(value: &str) -> (r: Result<ThreadGoalStatus, String>)
        ensures
            match r {
                Ok(s) => goal_status_text(s) == value@,
                Err(m) => (forall|s: ThreadGoalStatus| goal_status_text(s) != value@) && m@
                    == "unknown thread goal status `"@ + value@ + "`"@,
            },
    {
        if str_eq(value, "active") {
            Ok(ThreadGoalStatus::Active)
        } else if str_eq(value, "paused") {
            Ok(ThreadGoalStatus::Paused)
        } else if str_eq(value, "blocked") {
            Ok(ThreadGoalStatus::Blocked)
        } else if str_eq(value, "usage_limited") {
            Ok(ThreadGoalStatus::UsageLimited)
        } else if str_eq(value, "budget_limited") {
            Ok(ThreadGoalStatus::BudgetLimited)
        } else if str_eq(value, "complete") {
            Ok(ThreadGoalStatus::Complete)
        } else {
            Err(cat3("unknown thread goal status `", value, "`"))
        }
    }
}

// ---------------------------------------------------------------------------
// Thread goals
// ---------------------------------------------------------------------------

/// The current time in milliseconds since the Unix epoch
/// (`chrono::Utc::now().timestamp_millis()`); nothing is claimed of the value,
/// which is the clock's.
#[verifier::external_body]
pub(crate) fn now_millis() -> (r: i64) {
    chrono::Utc::now().timestamp_millis()
}

/// A fresh random goal id (`uuid::Uuid::new_v4()` in its hyphenated text
/// form, which always has 36 characters); nothing else is claimed of it.
#[verifier::external_body]
fn new_goal_id() -> (r: String)
    ensures
        r@.len() == 36,
{
    uuid::Uuid::new_v4().to_string()
}

/// A thread's goal. Times are milliseconds since the Unix epoch.
#[derive(Debug, Clone, PartialEq, Eq)]
pub struct ThreadGoal {
    pub thread_id: String,
    pub goal_id: String,
    pub objective: String,
    pub status: ThreadGoalStatus,
    pub token_budget: Option<i64>,
    pub tokens_used: i64,
    pub time_used_seconds: i64,
    pub created_at: i64,
    pub updated_at: i64,
}

/// A goal, as plain values.
#[verifier::ext_equal]
pub struct GoalView {
    pub thread_id: Seq<char>,
    pub goal_id: Seq<char>,
    pub objective: Seq<char>,
    pub status: ThreadGoalStatus,
    pub token_budget: Option<i64>,
    pub tokens_used: i64,
    pub time_used_seconds: i64,
    pub created_at: i64,
    pub updated_at: i64,
}

impl View for ThreadGoal {
    type V = GoalView;

    open spec fn view(&self) -> GoalView {
        GoalView {
            thread_id: self.thread_id@,
            goal_id: self.goal_id@,
            objective: self.objective@,
            status: self.status,
            token_budget: self.token_budget,
            tokens_used: self.tokens_used,
            time_used_seconds: self.time_used_seconds,
            created_at: self.created_at,
            updated_at: self.updated_at,
        }
    }
}

fn clone_goal(g: &ThreadGoal) -> (r: ThreadGoal)
    ensures
        r@ == g@,
{
    ThreadGoal {
        thread_id: clone_string(&g.thread_id),
        goal_id: clone_string(&g.goal_id),
        objective: clone_string(&g.objective),
        status: g.status,
        token_budget: g.token_budget,
        tokens_used: g.tokens_used,
        time_used_seconds: g.time_used_seconds,
        created_at: g.created_at,
        updated_at: g.updated_at,
    }
}

/// The status a new goal starts in: an active goal with a zero budget is at
/// its budget from the start.
pub open spec fn initial_status(status: ThreadGoalStatus, token_budget: Option<i64>) -> ThreadGoalStatus {
    if token_budget == Some(0i64) && status == ThreadGoalStatus::Active {
        ThreadGoalStatus::BudgetLimited
    } else {
        status
    }
}

/// A goal as it is created: the given text, status and budget, nothing used,
/// created and updated at the same moment.
pub open spec fn new_goal_is(
    g: GoalView,
    thread_id: Seq<char>,
    objective: Seq<char>,
    status: ThreadGoalStatus,
    token_budget: Option<i64>,
) -> bool {
    &&& g.thread_id == thread_id
    &&& g.goal_id.len() == 36
    &&& g.objective == objective
    &&& g.status == initial_status(status, token_budget)
    &&& g.token_budget == token_budget
    &&& g.tokens_used == 0
    &&& g.time_used_seconds == 0
    &&& g.created_at == g.updated_at
}

fn new_goal(
    thread_id: &str,
    objective: &str,
    status: ThreadGoalStatus,
    token_budget: Option<i64>,
) -> (g: ThreadGoal)
    ensures
        new_goal_is(g@, thread_id@, objective@, status, token_budget),
{
    let now = now_millis();
    let is_zero_budget = match token_budget {
        Some(b) => b == 0,
        None => false,
    };
    let status = if is_zero_budget && status.is_active() {
        ThreadGoalStatus::BudgetLimited
    } else {
        status
    };
    ThreadGoal {
        thread_id: owned(thread_id),
        goal_id: new_goal_id(),
        objective: owned(objective),
        status,
        token_budget,
        tokens_used: 0,
        time_used_seconds: 0,
        created_at: now,
        updated_at: now,
    }
}

/// The fields of a goal that an update sets, where given.
pub struct GoalUpdate {
    pub objective: Option<String>,
    pub status: Option<ThreadGoalStatus>,
    pub token_budget: Option<Option<i64>>,
    pub expected_goal_id: Option<String>,
}

/// Whether a goal is at or past its token budget while still active.
pub open spec fn over_budget(budget: Option<i64>, tokens_used: i64, status: ThreadGoalStatus) -> bool {
    budget matches Some(b) && tokens_used >= b && status == ThreadGoalStatus::Active
}

/// `g` with the update applied, updated at `now`; an active goal at or past
/// its budget becomes budget-limited.
pub open spec fn apply_update(g: GoalView, u: GoalUpdate, now: i64) -> GoalView {
    let objective = match u.objective {
        Some(o) => o@,
        None => g.objective,
    };
    let status = match u.status {
        Some(s) => s,
        None => g.status,
    };
    let budget = match u.token_budget {
        Some(b) => b,
        None => g.token_budget,
    };
    GoalView {
        objective,
        status: if over_budget(budget, g.tokens_used, status) {
            ThreadGoalStatus::BudgetLimited
        } else {
            status
        },
        token_budget: budget,
        updated_at: now,
        ..g
    }
}

#[derive(Clone, Copy, Debug, Eq, PartialEq, Structural)]
pub enum GoalAccountingMode {
    ActiveStatusOnly,
    ActiveOnly,
    ActiveOrComplete,
    ActiveOrStopped,
}

pub enum GoalAccountingOutcome {
    Unchanged(Option<ThreadGoal>),
    Updated(ThreadGoal),
}

/// Whether usage is charged to a goal in this status under `mode`.
pub open spec fn accounting_eligible(mode: GoalAccountingMode, status: ThreadGoalStatus) -> bool {
    match mode {
        GoalAccountingMode::ActiveStatusOnly | GoalAccountingMode::ActiveOnly => status
            == ThreadGoalStatus::Active,
        GoalAccountingMode::ActiveOrComplete => status == ThreadGoalStatus::Active || status
            == ThreadGoalStatus::Complete,
        GoalAccountingMode::ActiveOrStopped => true,
    }
}

/// `a + b` clamped to the range of `i64` (`i64::saturating_add`).
pub open spec fn sat_add(a: i64, b: i64) -> i64 {
    if a + b > i64::MAX {
        i64::MAX
    } else if a + b < i64::MIN {
        i64::MIN
    } else {
        (a + b) as i64
    }
}

/// `i64::saturating_add`.
pub fn saturating_add_i64(a: i64, b: i64) -> (r: i64)
    ensures
        r == sat_add(a, b),
{
    match a.checked_add(b) {
        Some(v) => v,
        None => if b > 0 {
            i64::MAX
        } else {
            i64::MIN
        },
    }
}

pub open spec fn nonneg(x: i64) -> i64 {
    if x < 0 {
        0
    } else {
        x
    }
}

/// `g` with the usage charged at `now`.
pub open spec fn charge(g: GoalView, time_delta_seconds: i64, token_delta: i64, now: i64) -> GoalView {
    let tokens = sat_add(g.tokens_used, nonneg(token_delta));
    GoalView {
        tokens_used: tokens,
        time_used_seconds: sat_add(g.time_used_seconds, nonneg(time_delta_seconds)),
        status: if over_budget(g.token_budget, tokens, g.status) {
            ThreadGoalStatus::BudgetLimited
        } else {
            g.status
        },
        updated_at: now,
        ..g
    }
}

/// The goals of the threads, one per thread.
pub struct GoalStore {
    goals: Vec<ThreadGoal>,
}

pub open spec fn has_thread(goals: Seq<ThreadGoal>, k: Seq<char>, i: int) -> bool {
    0 <= i < goals.len() && goals[i].thread_id@ == k
}

impl View for GoalStore {
    type V = Map<Seq<char>, GoalView>;

    closed spec fn view(&self) -> Map<Seq<char>, GoalView> {
        Map::new(
            |k: Seq<char>| exists|i: int| has_thread(self.goals@, k, i),
            |k: Seq<char>| self.goals@[choose|i: int| has_thread(self.goals@, k, i)]@,
        )
    }
}

impl GoalStore {
    /// One goal per thread.
    pub closed spec fn wf(self) -> bool {
        forall|i: int, j: int|
            0 <= i < j < self.goals@.len() ==> self.goals@[i].thread_id@ != self.goals@[j].thread_id@
    }

    pub fn new() -> (s: GoalStore)
        ensures
            s.wf(),
            s@ == Map::<Seq<char>, GoalView>::empty(),
    {
        let s = GoalStore { goals: Vec::new() };
        assert(s@ =~= Map::<Seq<char>, GoalView>::empty());
        s
    }

    /// The index of the goal of `thread_id`.
    fn find(&self, thread_id: &str) -> (r: Option<usize>)
        requires
            self.wf(),
        ensures
            match r {
                Some(i) => i < self.goals@.len() && self.goals@[i as int].thread_id@ == thread_id@
                    && self@.contains_key(thread_id@) && self@[thread_id@]
                    == self.goals@[i as int]@,
                None => !self@.contains_key(thread_id@),
            },
    {
        let mut i: usize = 0;
        while i < self.goals.len()
            invariant
                self.wf(),
                i <= self.goals@.len(),
                forall|j: int| 0 <= j < i ==> self.goals@[j].thread_id@ != thread_id@,
            decreases self.goals@.len() - i,
        {
            if str_eq(self.goals[i].thread_id.as_str(), thread_id) {
                assert(has_thread(self.goals@, thread_id@, i as int));
                let ghost c = choose|c: int| has_thread(self.goals@, thread_id@, c);
                assert(c == i as int);
                return Some(i);
            }
            i = i + 1;
        }
        None
    }

    proof fn lemma_view_set(self, new_self: Self, i: int, g: ThreadGoal)
        requires
            self.wf(),
            0 <= i < self.goals@.len(),
            g.thread_id@ == self.goals@[i].thread_id@,
            new_self.goals@ == self.goals@.update(i, g),
        ensures
            new_self.wf(),
            new_self@ == self@.insert(g.thread_id@, g@),
    {
        let k = g.thread_id@;
        assert(has_thread(new_self.goals@, k, i));
        assert forall|k2: Seq<char>| #[trigger] new_self@.contains_key(k2) == self@.insert(k, g@).contains_key(k2) by {
            if exists|j: int| has_thread(new_self.goals@, k2, j) {
                let j = choose|j: int| has_thread(new_self.goals@, k2, j);
                if j != i {
                    assert(new_self.goals@[j] == self.goals@[j]);
                    assert(has_thread(self.goals@, k2, j));
                }
            }
            if k2 != k && exists|j: int| has_thread(self.goals@, k2, j) {
                let j = choose|j: int| has_thread(self.goals@, k2, j);
                assert(j != i);
                assert(new_self.goals@[j] == self.goals@[j]);
                assert(has_thread(new_self.goals@, k2, j));
            }
        }
        assert forall|k2: Seq<char>| #[trigger] new_self@.contains_key(k2) implies new_self@[k2]
            == self@.insert(k, g@)[k2] by {
            let j = choose|j: int| has_thread(new_self.goals@, k2, j);
            if k2 == k {
                assert(j == i);
            } else {
                assert(has_thread(self.goals@, k2, j));
                let j2 = choose|j2: int| has_thread(self.goals@, k2, j2);
                assert(j2 == j);
            }
        }
        assert(new_self@ =~= self@.insert(k, g@));
    }

    proof fn lemma_view_push(self, new_self: Self, g: ThreadGoal)
        requires
            self.wf(),
            !self@.contains_key(g.thread_id@),
            new_self.goals@ == self.goals@.push(g),
        ensures
            new_self.wf(),
            new_self@ == self@.insert(g.thread_id@, g@),
    {
        let k = g.thread_id@;
        let n = self.goals@.len() as int;
        assert forall|i: int| 0 <= i < n implies self.goals@[i].thread_id@ != k by {
            if self.goals@[i].thread_id@ == k {
                assert(has_thread(self.goals@, k, i));
            }
        }
        assert forall|k2: Seq<char>| #[trigger] new_self@.contains_key(k2) == self@.insert(k, g@).contains_key(k2) by {
            if exists|j: int| has_thread(self.goals@, k2, j) {
                let j = choose|j: int| has_thread(self.goals@, k2, j);
                assert(has_thread(new_self.goals@, k2, j));
            }
            if k2 == k {
                assert(has_thread(new_self.goals@, k2, n));
            }
            if exists|j: int| has_thread(new_self.goals@, k2, j) {
                let j = choose|j: int| has_thread(new_self.goals@, k2, j);
                if j < n {
                    assert(has_thread(self.goals@, k2, j));
                }
            }
        }
        assert forall|k2: Seq<char>| #[trigger] new_self@.contains_key(k2) implies new_self@[k2]
            == self@.insert(k, g@)[k2] by {
            let j = choose|j: int| has_thread(new_self.goals@, k2, j);
            if k2 == k {
                assert(j == n);
            } else {
                assert(has_thread(self.goals@, k2, j));
                let j2 = choose|j2: int| has_thread(self.goals@, k2, j2);
                assert(j2 == j);
            }
        }
        assert(new_self@ =~= self@.insert(k, g@));
    }

    proof fn lemma_view_remove(self, new_self: Self, i: int)
        requires
            self.wf(),
            0 <= i < self.goals@.len(),
            new_self.goals@ == self.goals@.remove(i),
        ensures
            new_self.wf(),
            new_self@ == self@.remove(self.goals@[i].thread_id@),
    {
        let k = self.goals@[i].thread_id@;
        assert forall|a: int, b: int| 0 <= a < b < new_self.goals@.len() implies new_self.goals@[a].thread_id@
            != new_self.goals@[b].thread_id@ by {
            let a2 = if a < i { a } else { a + 1 };
            let b2 = if b < i { b } else { b + 1 };
            assert(new_self.goals@[a] == self.goals@[a2]);
            assert(new_self.goals@[b] == self.goals@[b2]);
        }
        assert forall|k2: Seq<char>| #[trigger] new_self@.contains_key(k2) == self@.remove(k).contains_key(k2) by {
            if exists|j: int| has_thread(new_self.goals@, k2, j) {
                let j = choose|j: int| has_thread(new_self.goals@, k2, j);
                let j2 = if j < i { j } else { j + 1 };
                assert(new_self.goals@[j] == self.goals@[j2]);
                assert(has_thread(self.goals@, k2, j2));
                assert(j2 != i);
            }
            if exists|j: int| has_thread(self.goals@, k2, j) && k2 != k {
                let j = choose|j: int| has_thread(self.goals@, k2, j) && k2 != k;
                assert(j != i);
                let j2 = if j < i { j } else { j - 1 };
                assert(new_self.goals@[j2] == self.goals@[j]);
                assert(has_thread(new_self.goals@, k2, j2));
            }
        }
        assert forall|k2: Seq<char>| #[trigger] new_self@.contains_key(k2) implies new_self@[k2]
            == self@.remove(k)[k2] by {
            let j = choose|j: int| has_thread(new_self.goals@, k2, j);
            let j2 = if j < i { j } else { j + 1 };
            assert(new_self.goals@[j] == self.goals@[j2]);
            assert(has_thread(self.goals@, k2, j2));
            let j3 = choose|j3: int| has_thread(self.goals@, k2, j3);
            assert(j3 == j2);
        }
        assert(new_self@ =~= self@.remove(k));
    }

    /// The goal of `thread_id`, if it has one.
    pub fn get_thread_goal(&self, thread_id: &str) -> (r: Option<ThreadGoal>)
        requires
            self.wf(),
        ensures
            match r {
                Some(g) => self@.contains_key(thread_id@) && g@ == self@[thread_id@],
                None => !self@.contains_key(thread_id@),
            },
    {
        match self.find(thread_id) {
            Some(i) => Some(clone_goal(&self.goals[i])),
            None => None,
        }
    }

    /// Gives `thread_id` a new goal, whether or not it had one.
    pub fn replace_thread_goal(
        &mut self,
        thread_id: &str,
        objective: &str,
        status: ThreadGoalStatus,
        token_budget: Option<i64>,
    ) -> (g: ThreadGoal)
        requires
            old(self).wf(),
        ensures
            final(self).wf(),
            new_goal_is(g@, thread_id@, objective@, status, token_budget),
            final(self)@ == old(self)@.insert(thread_id@, g@),
    {
        let goal = new_goal(thread_id, objective, status, token_budget);
        let stored = clone_goal(&goal);
        match self.find(thread_id) {
            Some(i) => {
                let ghost before = *self;
                self.goals.set(i, stored);
                proof {
                    before.lemma_view_set(*self, i as int, self.goals@[i as int]);
                }
            },
            None => {
                let ghost before = *self;
                self.goals.push(stored);
                proof {
                    before.lemma_view_push(*self, self.goals@.last());
                }
            },
        }
        goal
    }

    /// Gives `thread_id` a new goal unless it has one.
    pub fn insert_thread_goal(
        &mut self,
        thread_id: &str,
        objective: &str,
        status: ThreadGoalStatus,
        token_budget: Option<i64>,
    ) -> (r: Option<ThreadGoal>)
        requires
            old(self).wf(),
        ensures
            final(self).wf(),
            old(self)@.contains_key(thread_id@) ==> r is None && final(self)@ == old(self)@,
            !old(self)@.contains_key(thread_id@) ==> (r matches Some(g) && new_goal_is(
                g@,
                thread_id@,
                objective@,
                status,
                token_budget,
            ) && final(self)@ == old(self)@.insert(thread_id@, g@)),
    {
        if self.find(thread_id).is_some() {
            return None;
        }
        let goal = new_goal(thread_id, objective, status, token_budget);
        let stored = clone_goal(&goal);
        let ghost before = *self;
        self.goals.push(stored);
        proof {
            before.lemma_view_push(*self, self.goals@.last());
        }
        Some(goal)
    }

    /// Applies `update` to the goal of `thread_id`, unless it has none or its
    /// id is not the one expected.
    pub fn update_thread_goal(&mut self, thread_id: &str, update: GoalUpdate) -> (r: Option<ThreadGoal>)
        requires
            old(self).wf(),
        ensures
            final(self).wf(),
            match r {
                None => final(self)@ == old(self)@ && (!old(self)@.contains_key(thread_id@) || (
                update.expected_goal_id matches Some(e) && e@ != old(self)@[thread_id@].goal_id)),
                Some(g) => {
                    &&& old(self)@.contains_key(thread_id@)
                    &&& !(update.expected_goal_id matches Some(e) && e@ != old(self)@[thread_id@].goal_id)
                    &&& g@ == apply_update(old(self)@[thread_id@], update, g.updated_at)
                    &&& final(self)@ == old(self)@.insert(thread_id@, g@)
                },
            },
    {
        let i = match self.find(thread_id) {
            Some(i) => i,
            None => {
                return None;
            },
        };
        if let Some(expected) = &update.expected_goal_id {
            if !str_eq(expected.as_str(), self.goals[i].goal_id.as_str()) {
                return None;
            }
        }
        let ghost u = update;
        let mut goal = clone_goal(&self.goals[i]);
        let ghost g0 = goal@;
        if let Some(objective) = update.objective {
            goal.objective = objective;
        }
        if let Some(status) = update.status {
            goal.status = status;
        }
        if let Some(token_budget) = update.token_budget {
            goal.token_budget = token_budget;
        }
        let over = match goal.token_budget {
            Some(budget) => goal.tokens_used >= budget && goal.status.is_active(),
            None => false,
        };
        if over {
            goal.status = ThreadGoalStatus::BudgetLimited;
        }
        goal.updated_at = now_millis();
        assert(goal@ =~= apply_update(g0, u, goal.updated_at));
        let stored = clone_goal(&goal);
        let ghost before = *self;
        self.goals.set(i, stored);
        proof {
            before.lemma_view_set(*self, i as int, self.goals@[i as int]);
        }
        Some(goal)
    }

    pub fn pause_active_thread_goal(&mut self, thread_id: &str) -> (r: Option<ThreadGoal>)
        requires
            old(self).wf(),
        ensures
            final(self).wf(),
            match r {
                None => final(self)@ == old(self)@ && !old(self)@.contains_key(thread_id@),
                Some(g) => {
                    &&& old(self)@.contains_key(thread_id@)
                    &&& g@ == apply_update(
                        old(self)@[thread_id@],
                        GoalUpdate {
                            objective: None,
                            status: Some(ThreadGoalStatus::Paused),
                            token_budget: None,
                            expected_goal_id: None,
                        },
                        g.updated_at,
                    )
                    &&& final(self)@ == old(self)@.insert(thread_id@, g@)
                },
            },
    {
        self.update_thread_goal(
            thread_id,
            GoalUpdate {
                objective: None,
                status: Some(ThreadGoalStatus::Paused),
                token_budget: None,
                expected_goal_id: None,
            },
        )
    }

    pub fn usage_limit_active_thread_goal(&mut self, thread_id: &str) -> (r: Option<ThreadGoal>)
        requires
            old(self).wf(),
        ensures
            final(self).wf(),
            match r {
                None => final(self)@ == old(self)@ && !old(self)@.contains_key(thread_id@),
                Some(g) => {
                    &&& old(self)@.contains_key(thread_id@)
                    &&& g@ == apply_update(
                        old(self)@[thread_id@],
                        GoalUpdate {
                            objective: None,
                            status: Some(ThreadGoalStatus::UsageLimited),
                            token_budget: None,
                            expected_goal_id: None,
                        },
                        g.updated_at,
                    )
                    &&& final(self)@ == old(self)@.insert(thread_id@, g@)
                },
            },
    {
        self.update_thread_goal(
            thread_id,
            GoalUpdate {
                objective: None,
                status: Some(ThreadGoalStatus::UsageLimited),
                token_budget: None,
                expected_goal_id: None,
            },
        )
    }

    /// Removes the goal of `thread_id`; tells whether there was one.
    pub fn delete_thread_goal(&mut self, thread_id: &str) -> (r: bool)
        requires
            old(self).wf(),
        ensures
            final(self).wf(),
            r == old(self)@.contains_key(thread_id@),
            final(self)@ == old(self)@.remove(thread_id@),
    {
        match self.find(thread_id) {
            Some(i) => {
                let ghost before = *self;
                self.goals.remove(i);
                proof {
                    before.lemma_view_remove(*self, i as int);
                }
                true
            },
            None => {
                assert(self@.remove(thread_id@) =~= self@);
                false
            },
        }
    }

    /// Charges time and tokens to the goal of `thread_id` where `mode` allows
    /// it for the goal's status and the goal is the one expected.
    pub fn account_thread_goal_usage(
        &mut self,
        thread_id: &str,
        time_delta_seconds: i64,
        token_delta: i64,
        mode: GoalAccountingMode,
        expected_goal_id: Option<&str>,
    ) -> (r: GoalAccountingOutcome)
        requires
            old(self).wf(),
        ensures
            final(self).wf(),
            match r {
                GoalAccountingOutcome::Unchanged(None) => final(self)@ == old(self)@
                    && !old(self)@.contains_key(thread_id@),
                GoalAccountingOutcome::Unchanged(Some(g)) => {
                    &&& final(self)@ == old(self)@
                    &&& old(self)@.contains_key(thread_id@)
                    &&& g@ == old(self)@[thread_id@]
                    &&& ((expected_goal_id matches Some(e) && e@ != g@.goal_id)
                        || !accounting_eligible(mode, g@.status))
                },
                GoalAccountingOutcome::Updated(g) => {
                    &&& old(self)@.contains_key(thread_id@)
                    &&& !(expected_goal_id matches Some(e) && e@ != old(self)@[thread_id@].goal_id)
                    &&& accounting_eligible(mode, old(self)@[thread_id@].status)
                    &&& g@ == charge(old(self)@[thread_id@], time_delta_seconds, token_delta, g.updated_at)
                    &&& final(self)@ == old(self)@.insert(thread_id@, g@)
                },
            },
    {
        let i = match self.find(thread_id) {
            Some(i) => i,
            None => {
                return GoalAccountingOutcome::Unchanged(None);
            },
        };
        if let Some(expected) = expected_goal_id {
            if !str_eq(self.goals[i].goal_id.as_str(), expected) {
                return GoalAccountingOutcome::Unchanged(Some(clone_goal(&self.goals[i])));
            }
        }
        let status = self.goals[i].status;
        let eligible = match mode {
            GoalAccountingMode::ActiveStatusOnly | GoalAccountingMode::ActiveOnly => status
                == ThreadGoalStatus::Active,
            GoalAccountingMode::ActiveOrComplete => status == ThreadGoalStatus::Active || status
                == ThreadGoalStatus::Complete,
            GoalAccountingMode::ActiveOrStopped => true,
        };
        if !eligible {
            return GoalAccountingOutcome::Unchanged(Some(clone_goal(&self.goals[i])));
        }
        let mut goal = clone_goal(&self.goals[i]);
        let ghost g0 = goal@;
        let tokens: i64 = if token_delta < 0 { 0 } else { token_delta };
        let time: i64 = if time_delta_seconds < 0 { 0 } else { time_delta_seconds };
        goal.tokens_used = saturating_add_i64(goal.tokens_used, tokens);
        goal.time_used_seconds = saturating_add_i64(goal.time_used_seconds, time);
        let over = match goal.token_budget {
            Some(budget) => goal.tokens_used >= budget && goal.status.is_active(),
            None => false,
        };
        if over {
            goal.status = ThreadGoalStatus::BudgetLimited;
        }
        goal.updated_at = now_millis();
        assert(goal@ =~= charge(g0, time_delta_seconds, token_delta, goal.updated_at));
        let stored = clone_goal(&goal);
        let ghost before = *self;
        self.goals.set(i, stored);
        proof {
            before.lemma_view_set(*self, i as int, self.goals@[i as int]);
        }
        GoalAccountingOutcome::Updated(goal)
    }
}

// ---------------------------------------------------------------------------
// Laws of the goal store
// ---------------------------------------------------------------------------

/// What `replace_thread_goal` or `insert_thread_goal` stores for a thread is
/// what `get_thread_goal` reads back for it, and other threads keep theirs.
pub proof fn law_goal_read_after_write(
    before: Map<Seq<char>, GoalView>,
    after: Map<Seq<char>, GoalView>,
    thread_id: Seq<char>,
    goal: GoalView,
    other: Seq<char>,
)
    requires
        after == before.insert(thread_id, goal),
    ensures
        after.contains_key(thread_id),
        after[thread_id] == goal,
        other != thread_id ==> (after.contains_key(other) == before.contains_key(other)),
        other != thread_id && before.contains_key(other) ==> after[other] == before[other],
{
}

/// After `delete_thread_goal`, the thread has no goal and the others keep theirs.
pub proof fn law_goal_gone_after_delete(
    before: Map<Seq<char>, GoalView>,
    after: Map<Seq<char>, GoalView>,
    thread_id: Seq<char>,
    other: Seq<char>,
)
    requires
        after == before.remove(thread_id),
    ensures
        !after.contains_key(thread_id),
        other != thread_id ==> (after.contains_key(other) == before.contains_key(other)),
        other != thread_id && before.contains_key(other) ==> after[other] == before[other],
{
}

/// Charging usage never lowers the tokens or the time used.
pub proof fn law_charge_never_decreases(g: GoalView, time_delta_seconds: i64, token_delta: i64, now: i64)
    ensures
        charge(g, time_delta_seconds, token_delta, now).tokens_used >= g.tokens_used,
        charge(g, time_delta_seconds, token_delta, now).time_used_seconds >= g.time_used_seconds,
{
}

/// After an update or a charge, no goal stays active at or past its budget.
pub proof fn law_budget_stops_active_goals(
    g: GoalView,
    u: GoalUpdate,
    time_delta_seconds: i64,
    token_delta: i64,
    now: i64,
)
    ensures
        !over_budget(
            apply_update(g, u, now).token_budget,
            apply_update(g, u, now).tokens_used,
            apply_update(g, u, now).status,
        ),
        !over_budget(
            charge(g, time_delta_seconds, token_delta, now).token_budget,
            charge(g, time_delta_seconds, token_delta, now).tokens_used,
            charge(g, time_delta_seconds, token_delta, now).status,
        ),
{
}

/// A new goal with a budget that is not negative never starts active at or
/// past that budget.
pub proof fn law_new_goal_within_budget(status: ThreadGoalStatus, token_budget: Option<i64>)
    requires
        token_budget matches Some(b) ==> b >= 0,
    ensures
        !over_budget(token_budget, 0, initial_status(status, token_budget)),
{
}

/// Each text names at most one agent job status, so parsing a status's own
/// text gives that status back.
pub proof fn law_agent_job_status_text_unique(a: AgentJobStatus, b: AgentJobStatus)
    requires
        agent_job_status_text(a) == agent_job_status_text(b),
    ensures
        a == b,
{
    reveal_strlit("pending");
    reveal_strlit("running");
    reveal_strlit("completed");
    reveal_strlit("failed");
    reveal_strlit("cancelled");
    let (x, y) = (agent_job_status_text(a), agent_job_status_text(b));
    assert(x.len() == y.len() && x[0] == y[0] && x[1] == y[1]);
}

/// Each text names at most one job item status.
pub proof fn law_agent_job_item_status_text_unique(a: AgentJobItemStatus, b: AgentJobItemStatus)
    requires
        agent_job_item_status_text(a) == agent_job_item_status_text(b),
    ensures
        a == b,
{
    reveal_strlit("pending");
    reveal_strlit("running");
    reveal_strlit("completed");
    reveal_strlit("failed");
    let (x, y) = (agent_job_item_status_text(a), agent_job_item_status_text(b));
    assert(x.len() == y.len() && x[0] == y[0]);
}

/// Each text names at most one backfill status.
pub proof fn law_backfill_status_text_unique(a: BackfillStatus, b: BackfillStatus)
    requires
        backfill_status_text(a) == backfill_status_text(b),
    ensures
        a == b,
{
    reveal_strlit("pending");
    reveal_strlit("running");
    reveal_strlit("complete");
    let (x, y) = (backfill_status_text(a), backfill_status_text(b));
    assert(x.len() == y.len() && x[0] == y[0]);
}

/// Each text names at most one goal status.
pub proof fn law_goal_status_text_unique(a: ThreadGoalStatus, b: ThreadGoalStatus)
    requires
        goal_status_text(a) == goal_status_text(b),
    ensures
        a == b,
{
    reveal_strlit("active");
    reveal_strlit("paused");
    reveal_strlit("blocked");
    reveal_strlit("usage_limited");
    reveal_strlit("budget_limited");
    reveal_strlit("complete");
    let (x, y) = (goal_status_text(a), goal_status_text(b));
    assert(x.len() == y.len() && x[0] == y[0]);
}

// ---------------------------------------------------------------------------
// Records
// ---------------------------------------------------------------------------

#[derive(Clone, Debug)]
pub struct LogEntry {
    pub ts: i64,
    pub ts_nanos: i64,
    pub level: String,
    pub target: String,
    pub message: Option<String>,
    pub feedback_log_body: Option<String>,
    pub thread_id: Option<String>,
    pub process_uuid: Option<String>,
    pub module_name: Option<String>,
    pub file: Option<String>,
    pub line: Option<i64>,
}

#[derive(Clone, Debug)]
pub struct LogRow {
    pub id: i64,
    pub ts: i64,
    pub ts_nanos: i64,
    pub level: String,
    pub target: String,
    pub message: Option<String>,
    pub thread_id: Option<String>,
    pub process_uuid: Option<String>,
    pub file: Option<String>,
    pub line: Option<i64>,
}

#[derive(Clone, Debug)]
pub struct LogQuery {
    pub levels_upper: Vec<String>,
    pub from_ts: Option<i64>,
    pub to_ts: Option<i64>,
    pub module_like: Vec<String>,
    pub file_like: Vec<String>,
    pub thread_ids: Vec<String>,
    pub search: Option<String>,
    pub include_threadless: bool,
    pub after_id: Option<i64>,
    pub limit: Option<usize>,
    pub descending: bool,
}

impl Default for LogQuery {
    fn default() -> (r: LogQuery)
        ensures
            r.levels_upper@.len() == 0,
            r.from_ts is None,
            r.to_ts is None,
            r.module_like@.len() == 0,
            r.file_like@.len() == 0,
            r.thread_ids@.len() == 0,
            r.search is None,
            !r.include_threadless,
            r.after_id is None,
            r.limit is None,
            !r.descending,
    {
        LogQuery {
            levels_upper: Vec::new(),
            from_ts: None,
            to_ts: None,
            module_like: Vec::new(),
            file_like: Vec::new(),
            thread_ids: Vec::new(),
            search: None,
            include_threadless: false,
            after_id: None,
            limit: None,
            descending: false,
        }
    }
}

#[derive(Debug, Clone, PartialEq, Eq)]
pub struct AgentJobProgress {
    pub total_items: usize,
    pub pending_items: usize,
    pub running_items: usize,
    pub completed_items: usize,
    pub failed_items: usize,
}

#[derive(Debug, Clone)]
pub struct BackfillStats {
    pub scanned: usize,
    pub upserted: usize,
    pub failed: usize,
}

#[derive(Debug, Clone, PartialEq, Eq)]
pub enum Stage1JobClaimOutcome {
    Claimed { ownership_token: String },
    SkippedUpToDate,
    SkippedRunning,
    SkippedRetryBackoff,
    SkippedRetryExhausted,
}

#[derive(Debug, Clone)]
pub struct Stage1StartupClaimParams {
    pub scan_limit: usize,
    pub max_claimed: usize,
    pub max_age_days: i64,
    pub min_rollout_idle_hours: i64,
    pub allowed_sources: Vec<String>,
    pub lease_seconds: i64,
}

#[derive(Debug, Clone, PartialEq, Eq)]
pub enum Phase2JobClaimOutcome {
    Claimed { ownership_token: String, input_watermark: i64 },
    SkippedRetryUnavailable,
    SkippedCooldown,
    SkippedRunning,
}

#[derive(Debug, Clone, Copy, PartialEq, Eq, Structural)]
pub enum SortKey {
    CreatedAt,
    UpdatedAt,
}

#[derive(Debug, Clone, Copy, PartialEq, Eq, Structural)]
pub enum SortDirection {
    Asc,
    Desc,
}

/// The memories store; the browser build keeps no memories.
#[derive(Clone, Copy)]
pub struct MemoryStore {}

#[derive(Debug, Clone, PartialEq, Eq)]
pub struct RemoteControlEnrollmentRecord {
    pub websocket_url: String,
    pub account_id: String,
    pub app_server_client_name: Option<String>,
    pub server_id: String,
    pub environment_id: String,
    pub server_name: String,
}

/// The key under which a remote-control enrollment is kept: the URL, the
/// account and the client name (or nothing), one per line.
pub open spec fn remote_control_key_spec(url: Seq<char>, account: Seq<char>, client: Option<Seq<char>>) -> Seq<char> {
    url + "\n"@ + account + "\n"@ + match client {
        Some(c) => c,
        None => Seq::empty(),
    }
}

pub fn remote_control_key(websocket_url: &str, account_id: &str, app_server_client_name: Option<&str>) -> (r: String)
    ensures
        r@ == remote_control_key_spec(
            websocket_url@,
            account_id@,
            match app_server_client_name {
                Some(c) => Some(c@),
                None => None,
            },
        ),
{
    let mut key = cat3(websocket_url, "\n", account_id);
    key.append("\n");
    if let Some(c) = app_server_client_name {
        key.append(c);
    }
    key
}

#[derive(Debug, Clone)]
pub struct ThreadStateAuditRow {
    pub id: String,
    pub rollout_path: String,
    pub archived: bool,
    pub source: String,
    pub model_provider: String,
}

// ---------------------------------------------------------------------------
// Database files
// ---------------------------------------------------------------------------

/// `base` joined with a relative path component (`Path::join` on Unix): a
/// `/` goes between them unless `base` is empty or already ends with one.
pub open spec fn join_path_spec(base: Seq<char>, name: Seq<char>) -> Seq<char> {
    if base.len() == 0 {
        name
    } else if ends_with_seq(base, "/"@) {
        base + name
    } else {
        base + "/"@ + name
    }
}

pub fn join_path(base: &str, name: &str) -> (r: String)
    ensures
        r@ == join_path_spec(base@, name@),
{
    if base.unicode_len() == 0 {
        owned(name)
    } else if ends_with(base, "/") {
        cat2(base, name)
    } else {
        cat3(base, "/", name)
    }
}

pub open spec fn state_db_name() -> Seq<char> {
    "state_5.sqlite"@
}

pub open spec fn logs_db_name() -> Seq<char> {
    "logs_2.sqlite"@
}

pub open spec fn goals_db_name() -> Seq<char> {
    "goals_1.sqlite"@
}

pub open spec fn memories_db_name() -> Seq<char> {
    "memories_1.sqlite"@
}

pub fn state_db_filename() -> (r: String)
    ensures
        r@ == state_db_name(),
{
    owned("state_5.sqlite")
}

pub fn state_db_path(codex_home: &str) -> (r: String)
    ensures
        r@ == join_path_spec(codex_home@, state_db_name()),
{
    join_path(codex_home, "state_5.sqlite")
}

pub fn logs_db_filename() -> (r: String)
    ensures
        r@ == logs_db_name(),
{
    owned("logs_2.sqlite")
}

pub fn logs_db_path(codex_home: &str) -> (r: String)
    ensures
        r@ == join_path_spec(codex_home@, logs_db_name()),
{
    join_path(codex_home, "logs_2.sqlite")
}

pub fn goals_db_filename() -> (r: String)
    ensures
        r@ == goals_db_name(),
{
    owned("goals_1.sqlite")
}

pub fn goals_db_path(codex_home: &str) -> (r: String)
    ensures
        r@ == join_path_spec(codex_home@, goals_db_name()),
{
    join_path(codex_home, "goals_1.sqlite")
}

pub fn memories_db_filename() -> (r: String)
    ensures
        r@ == memories_db_name(),
{
    owned("memories_1.sqlite")
}

pub fn memories_db_path(codex_home: &str) -> (r: String)
    ensures
        r@ == join_path_spec(codex_home@, memories_db_name()),
{
    join_path(codex_home, "memories_1.sqlite")
}

/// A database file of the runtime and what it is called in reports.
#[derive(Clone, Debug, Eq, PartialEq)]
pub struct RuntimeDbPath {
    pub label: String,
    pub path: String,
}

/// The four database files of the runtime, in a fixed order.
pub fn runtime_db_paths(codex_home: &str) -> (r: Vec<RuntimeDbPath>)
    ensures
        r@.len() == 4,
        r@[0].label@ == "state DB"@ && r@[0].path@ == join_path_spec(codex_home@, state_db_name()),
        r@[1].label@ == "log DB"@ && r@[1].path@ == join_path_spec(codex_home@, logs_db_name()),
        r@[2].label@ == "goals DB"@ && r@[2].path@ == join_path_spec(codex_home@, goals_db_name()),
        r@[3].label@ == "memories DB"@ && r@[3].path@ == join_path_spec(
            codex_home@,
            memories_db_name(),
        ),
{
    let mut v: Vec<RuntimeDbPath> = Vec::new();
    v.push(RuntimeDbPath { label: owned("state DB"), path: state_db_path(codex_home) });
    v.push(RuntimeDbPath { label: owned("log DB"), path: logs_db_path(codex_home) });
    v.push(RuntimeDbPath { label: owned("goals DB"), path: goals_db_path(codex_home) });
    v.push(RuntimeDbPath { label: owned("memories DB"), path: memories_db_path(codex_home) });
    v
}

// ---------------------------------------------------------------------------
// Database telemetry
// ---------------------------------------------------------------------------

/// Where database metrics go; implemented by the embedding program.
pub trait DbTelemetry {
    fn counter(&self, name: &str, inc: i64, tags: &Vec<(String, String)>);

    fn record_duration(&self, name: &str, duration_millis: u64, tags: &Vec<(String, String)>);
}

pub open spec fn gate_status(result_ok: bool) -> Seq<char> {
    if result_ok {
        "success"@
    } else {
        "failed"@
    }
}

/// The tags of a database start-up metric.
pub fn backfill_gate_tags(result_ok: bool) -> (r: Vec<(String, String)>)
    ensures
        r@.len() == 1,
        r@[0].0@ == "status"@,
        r@[0].1@ == gate_status(result_ok),
{
    let status = if result_ok {
        "success"
    } else {
        "failed"
    };
    vec![(owned("status"), owned(status))]
}

/// The tags of a fallback metric.
pub fn fallback_tags(caller: &str, reason: &str) -> (r: Vec<(String, String)>)
    ensures
        r@.len() == 2,
        r@[0].0@ == "caller"@ && r@[0].1@ == caller@,
        r@[1].0@ == "reason"@ && r@[1].1@ == reason@,
{
    vec![(owned("caller"), owned(caller)), (owned("reason"), owned(reason))]
}

/// The telemetry a report goes to: the one given, else the one installed
/// for the process.
pub fn pick_telemetry<'a, T: DbTelemetry + ?Sized>(given: Option<&'a T>, installed: Option<&'a T>) -> (r: Option<&'a T>)
    ensures
        r == if given is Some {
            given
        } else {
            installed
        },
{
    match given {
        Some(t) => Some(t),
        None => installed,
    }
}

/// One report to the database telemetry: a counter increment or a duration,
/// each with its metric name and tags.
#[derive(Debug)]
pub enum DbMetric {
    Counter { name: String, inc: i64, tags: Vec<(String, String)> },
    Duration { name: String, millis: u64, tags: Vec<(String, String)> },
}

/// The tags as pairs of texts.
pub open spec fn tag_views(tags: Seq<(String, String)>) -> Seq<(Seq<char>, Seq<char>)> {
    tags.map_values(|t: (String, String)| (t.0@, t.1@))
}

/// Whether `m` counts one more of `name` with these tags.
pub open spec fn counts_one(m: DbMetric, name: Seq<char>, tags: Seq<(Seq<char>, Seq<char>)>) -> bool {
    m matches DbMetric::Counter { name: n, inc, tags: t } && n@ == name && inc == 1 && tag_views(t@)
        == tags
}

/// The reports of a database start-up: one more start-up counted, then how
/// long it took, both tagged with whether it worked.
pub fn backfill_gate_metrics(duration_millis: u64, result_ok: bool) -> (r: Vec<DbMetric>)
    ensures
        r@.len() == 2,
        counts_one(r@[0], "codex.sqlite.init.count"@, seq![("status"@, gate_status(result_ok))]),
        r@[1] matches DbMetric::Duration { name, millis, tags } && name@
            == "codex.sqlite.init.duration_ms"@ && millis == duration_millis && tag_views(tags@)
            == seq![("status"@, gate_status(result_ok))],
{
    let counter_tags = backfill_gate_tags(result_ok);
    let duration_tags = backfill_gate_tags(result_ok);
    assert(tag_views(counter_tags@) =~= seq![("status"@, gate_status(result_ok))]);
    assert(tag_views(duration_tags@) =~= seq![("status"@, gate_status(result_ok))]);
    vec![
        DbMetric::Counter { name: owned("codex.sqlite.init.count"), inc: 1, tags: counter_tags },
        DbMetric::Duration {
            name: owned("codex.sqlite.init.duration_ms"),
            millis: duration_millis,
            tags: duration_tags,
        },
    ]
}

/// The report of a fallback from the database: one more fallback counted,
/// tagged with the caller and the reason.
pub fn fallback_metrics(caller: &str, reason: &str) -> (r: Vec<DbMetric>)
    ensures
        r@.len() == 1,
        counts_one(
            r@[0],
            "codex.sqlite.fallback.count"@,
            seq![("caller"@, caller@), ("reason"@, reason@)],
        ),
{
    let tags = fallback_tags(caller, reason);
    assert(tag_views(tags@) =~= seq![("caller"@, caller@), ("reason"@, reason@)]);
    vec![DbMetric::Counter { name: owned("codex.sqlite.fallback.count"), inc: 1, tags }]
}

/// Hands each report to the telemetry, in order.
pub fn emit_metrics<T: DbTelemetry + ?Sized>(telemetry: &T, metrics: &Vec<DbMetric>) {
    let mut i: usize = 0;
    while i < metrics.len()
        invariant
            i <= metrics@.len(),
        decreases metrics@.len() - i,
    {
        match &metrics[i] {
            DbMetric::Counter { name, inc, tags } => telemetry.counter(name.as_str(), *inc, tags),
            DbMetric::Duration { name, millis, tags } => telemetry.record_duration(
                name.as_str(),
                *millis,
                tags,
            ),
        }
        i = i + 1;
    }
}

/// Reports how long opening the databases took and whether it worked (see
/// `backfill_gate_metrics`), to the telemetry given or else to the one
/// installed for the process.
pub fn record_backfill_gate<T: DbTelemetry + ?Sized>(
    telemetry: Option<&T>,
    process_telemetry: Option<&T>,
    duration_millis: u64,
    result_ok: bool,
) {
    if let Some(t) = pick_telemetry(telemetry, process_telemetry) {
        emit_metrics(t, &backfill_gate_metrics(duration_millis, result_ok));
    }
}

/// Reports that a caller fell back from the database, and why (see
/// `fallback_metrics`), to the telemetry given or else to the one installed
/// for the process.
pub fn record_fallback<T: DbTelemetry + ?Sized>(
    caller: &str,
    reason: &str,
    telemetry_override: Option<&T>,
    process_telemetry: Option<&T>,
) {
    if let Some(t) = pick_telemetry(telemetry_override, process_telemetry) {
        emit_metrics(t, &fallback_metrics(caller, reason));
    }
}

/// The log database layer; the browser keeps no log database, so flushing
/// has nothing to do.
#[derive(Debug, Clone, Copy)]
pub struct LogDbLayer;

impl LogDbLayer {
    pub fn flush(&self) {
    }
}

} // verus!
