use vstd::prelude::*;

use crate::browser_cli::clone_opt_string;
use crate::browser_cli::clone_string;
use crate::browser_cli::opt_view;
use crate::state::remote_control_key;
use crate::state::remote_control_key_spec;
use crate::state::AgentJobProgress;
use crate::state::BackfillStatus;
use crate::state::DirectionalThreadSpawnEdgeStatus;
use crate::state::GoalStore;
use crate::state::GoalView;
use crate::state::MemoryStore;
use crate::state::SortDirection;
use crate::state::SortKey;
use crate::state::RemoteControlEnrollmentRecord;
use crate::table::position;
use crate::table::Table;
use crate::rollout::paths_are_equal;
use crate::rollout::same_path;
use crate::text::contains_seq;
use crate::text::contains_str;
use crate::text::lower_seq;
use crate::text::owned;
use crate::text::string_views;
use crate::text::to_ascii_lowercase;
use crate::text::trim;
use crate::text::trim_seq;
use crate::state::LogEntry;
use crate::state::LogQuery;
use crate::state::LogRow;
use crate::thread_metadata::after_item;
use crate::thread_metadata::apply_rollout_item;
use crate::thread_metadata::built;
use crate::thread_metadata::prefer_some;
use crate::thread_metadata::RolloutItem;
use crate::thread_metadata::ThreadMetadataBuilder;
use crate::thread_metadata::ThreadMetadata;
use crate::thread_metadata::ThreadMetadataView;

verus! {

/// The edge of the spawn tree that leads to a child thread: its parent and
/// whether the edge is open.
#[derive(Debug)]
pub struct SpawnEdge {
    pub child: String,
    pub parent: String,
    pub status: DirectionalThreadSpawnEdgeStatus,
}

pub struct SpawnEdgeView {
    pub child: Seq<char>,
    pub parent: Seq<char>,
    pub status: DirectionalThreadSpawnEdgeStatus,
}

impl View for SpawnEdge {
    type V = SpawnEdgeView;

    open spec fn view(&self) -> SpawnEdgeView {
        SpawnEdgeView { child: self.child@, parent: self.parent@, status: self.status }
    }
}

/// A remote-control enrollment, as plain values.
pub struct EnrollmentView {
    pub websocket_url: Seq<char>,
    pub account_id: Seq<char>,
    pub app_server_client_name: Option<Seq<char>>,
    pub server_id: Seq<char>,
    pub environment_id: Seq<char>,
    pub server_name: Seq<char>,
}

impl View for RemoteControlEnrollmentRecord {
    type V = EnrollmentView;

    open spec fn view(&self) -> EnrollmentView {
        EnrollmentView {
            websocket_url: self.websocket_url@,
            account_id: self.account_id@,
            app_server_client_name: opt_view(self.app_server_client_name),
            server_id: self.server_id@,
            environment_id: self.environment_id@,
            server_name: self.server_name@,
        }
    }
}

fn clone_enrollment(r: &RemoteControlEnrollmentRecord) -> (c: RemoteControlEnrollmentRecord)
    ensures
        c@ == r@,
{
    RemoteControlEnrollmentRecord {
        websocket_url: clone_string(&r.websocket_url),
        account_id: clone_string(&r.account_id),
        app_server_client_name: clone_opt_string(&r.app_server_client_name),
        server_id: clone_string(&r.server_id),
        environment_id: clone_string(&r.environment_id),
        server_name: clone_string(&r.server_name),
    }
}

/// The key under which an enrollment is kept.
pub open spec fn enrollment_key(e: EnrollmentView) -> Seq<char> {
    remote_control_key_spec(e.websocket_url, e.account_id, e.app_server_client_name)
}

/// The state store of the browser build, as plain values: the threads by id
/// and in storage order, their memory modes, the spawn edges by child and in
/// storage order, the remote-control enrollments by key, and the goals.
pub struct StateView {
    pub codex_home: Seq<char>,
    pub default_provider: Seq<char>,
    pub goals: Map<Seq<char>, GoalView>,
    pub threads: Map<Seq<char>, ThreadMetadataView>,
    pub thread_rows: Seq<ThreadMetadataView>,
    pub memory_modes: Map<Seq<char>, Seq<char>>,
    pub spawn_edges: Map<Seq<char>, SpawnEdgeView>,
    pub edge_rows: Seq<SpawnEdgeView>,
    pub enrollments: Map<Seq<char>, EnrollmentView>,
}

/// The state store of the browser build, which keeps everything in memory.
pub struct StateRuntime {
    codex_home: String,
    default_provider: String,
    thread_goals: GoalStore,
    memories: MemoryStore,
    threads: Table<ThreadMetadata>,
    thread_memory_modes: Table<String>,
    spawn_edges: Table<SpawnEdge>,
    remote_control_enrollments: Table<RemoteControlEnrollmentRecord>,
}

impl View for StateRuntime {
    type V = StateView;

    closed spec fn view(&self) -> StateView {
        StateView {
            codex_home: self.codex_home@,
            default_provider: self.default_provider@,
            goals: self.thread_goals@,
            threads: self.threads@,
            thread_rows: self.threads.values(),
            memory_modes: self.thread_memory_modes@,
            spawn_edges: self.spawn_edges@,
            edge_rows: self.spawn_edges.values(),
            enrollments: self.remote_control_enrollments@,
        }
    }
}

/// The place of thread `id` among `rows`.
pub open spec fn thread_index(rows: Seq<ThreadMetadataView>, id: Seq<char>) -> int {
    choose|i: int| 0 <= i < rows.len() && rows[i].id == id
}

/// Each stored thread is kept under its own id, in exactly one row.
pub open spec fn threads_consistent(
    threads: Map<Seq<char>, ThreadMetadataView>,
    rows: Seq<ThreadMetadataView>,
) -> bool {
    &&& forall|i: int, j: int| 0 <= i < j < rows.len() ==> rows[i].id != rows[j].id
    &&& forall|i: int| 0 <= i < rows.len() ==> #[trigger] threads.contains_key(rows[i].id)
        && threads[rows[i].id] == rows[i]
    &&& forall|k: Seq<char>| #[trigger]
        threads.contains_key(k) ==> {
            let p = thread_index(rows, k);
            &&& 0 <= p < rows.len()
            &&& rows[p].id == k
            &&& threads[k] == rows[p]
        }
}

/// Each spawn edge is kept under its child, in exactly one row.
pub open spec fn edges_consistent(
    edges: Map<Seq<char>, SpawnEdgeView>,
    rows: Seq<SpawnEdgeView>,
) -> bool {
    &&& forall|i: int, j: int| 0 <= i < j < rows.len() ==> rows[i].child != rows[j].child
    &&& forall|i: int| 0 <= i < rows.len() ==> #[trigger] edges.contains_key(rows[i].child)
        && edges[rows[i].child] == rows[i]
    &&& forall|k: Seq<char>| #[trigger] edges.contains_key(k) ==> exists|i: int|
        0 <= i < rows.len() && rows[i].child == k
}

/// Each enrollment is kept under its own key.
pub open spec fn enrollments_consistent(e: Map<Seq<char>, EnrollmentView>) -> bool {
    forall|k: Seq<char>| #[trigger] e.contains_key(k) ==> enrollment_key(e[k]) == k
}

/// The message of an operation that the browser build leaves to a host.
pub open spec fn unsupported_state_message(operation: Seq<char>) -> Seq<char> {
    "codex-state operation `"@ + operation + "` requires a browser persistence host shim"@
}

fn unsupported_state(operation: &str) -> (r: String)
    ensures
        r@ == unsupported_state_message(operation@),
{
    let mut m = owned("codex-state operation `");
    m.append(operation);
    m.append("` requires a browser persistence host shim");
    m
}

/// What the store knows of the backfill of rollouts into it.
#[derive(Debug, Clone, PartialEq, Eq)]
pub struct BackfillState {
    pub status: BackfillStatus,
    pub last_watermark: Option<String>,
    pub last_success_at: Option<i64>,
}

impl Default for BackfillState {
    fn default() -> (r: BackfillState)
        ensures
            r.status == BackfillStatus::Pending,
            r.last_watermark is None,
            r.last_success_at is None,
    {
        BackfillState { status: BackfillStatus::Pending, last_watermark: None, last_success_at: None }
    }
}

impl StateRuntime {
    pub closed spec fn wf(self) -> bool {
        &&& self.thread_goals.wf()
        &&& self.threads.wf()
        &&& self.thread_memory_modes.wf()
        &&& self.spawn_edges.wf()
        &&& self.remote_control_enrollments.wf()
        &&& forall|i: int|
            0 <= i < self.threads.keys().len() ==> #[trigger] self.threads.keys()[i]
                == self.threads.values()[i].id
        &&& forall|i: int|
            0 <= i < self.spawn_edges.keys().len() ==> #[trigger] self.spawn_edges.keys()[i]
                == self.spawn_edges.values()[i].child
        &&& enrollments_consistent(self.remote_control_enrollments@)
    }

    /// What `wf` gives of the plain values.
    pub proof fn lemma_consistent(self)
        requires
            self.wf(),
        ensures
            threads_consistent(self@.threads, self@.thread_rows),
            edges_consistent(self@.spawn_edges, self@.edge_rows),
            enrollments_consistent(self@.enrollments),
    {
        self.threads.lemma_rows();
        self.spawn_edges.lemma_rows();
        let rows = self@.thread_rows;
        let keys = self.threads.keys();
        assert forall|i: int, j: int| 0 <= i < j < rows.len() implies rows[i].id != rows[j].id by {
            assert(keys[i] == rows[i].id);
            assert(keys[j] == rows[j].id);
        }
        assert forall|i: int| 0 <= i < rows.len() implies #[trigger] self@.threads.contains_key(rows[i].id)
            && self@.threads[rows[i].id] == rows[i] by {
            assert(keys[i] == rows[i].id);
        }
        assert forall|k: Seq<char>| #[trigger] self@.threads.contains_key(k) implies {
            let p = thread_index(rows, k);
            &&& 0 <= p < rows.len()
            &&& rows[p].id == k
            &&& self@.threads[k] == rows[p]
        } by {
            let q = position(keys, k);
            assert(keys[q] == rows[q].id);
            assert(0 <= q < rows.len() && rows[q].id == k);
            let p = thread_index(rows, k);
            assert(keys[p] == rows[p].id);
            assert(p == q) by {
                if p < q {
                    assert(keys[p] != keys[q]);
                } else if p > q {
                    assert(keys[q] != keys[p]);
                }
            }
        }
        let erows = self@.edge_rows;
        let ekeys = self.spawn_edges.keys();
        assert forall|i: int, j: int| 0 <= i < j < erows.len() implies erows[i].child != erows[j].child by {
            assert(ekeys[i] == erows[i].child);
            assert(ekeys[j] == erows[j].child);
        }
        assert forall|i: int| 0 <= i < erows.len() implies #[trigger] self@.spawn_edges.contains_key(
            erows[i].child,
        ) && self@.spawn_edges[erows[i].child] == erows[i] by {
            assert(ekeys[i] == erows[i].child);
        }
        assert forall|k: Seq<char>| #[trigger] self@.spawn_edges.contains_key(k) implies exists|i: int|
            0 <= i < erows.len() && erows[i].child == k by {
            let q = position(ekeys, k);
            assert(ekeys[q] == erows[q].child);
        }
    }

    /// An empty store under `codex_home`; threads that name no provider get
    /// `default_provider`.
    pub fn init(codex_home: String, default_provider: String) -> (s: StateRuntime)
        ensures
            s.wf(),
            s@.codex_home == codex_home@,
            s@.default_provider == default_provider@,
            s@.goals == Map::<Seq<char>, GoalView>::empty(),
            s@.threads == Map::<Seq<char>, ThreadMetadataView>::empty(),
            s@.thread_rows == Seq::<ThreadMetadataView>::empty(),
            s@.memory_modes == Map::<Seq<char>, Seq<char>>::empty(),
            s@.spawn_edges == Map::<Seq<char>, SpawnEdgeView>::empty(),
            s@.edge_rows == Seq::<SpawnEdgeView>::empty(),
            s@.enrollments == Map::<Seq<char>, EnrollmentView>::empty(),
    {
        StateRuntime {
            codex_home,
            default_provider,
            thread_goals: GoalStore::new(),
            memories: MemoryStore {},
            threads: Table::new(),
            thread_memory_modes: Table::new(),
            spawn_edges: Table::new(),
            remote_control_enrollments: Table::new(),
        }
    }

    pub fn codex_home(&self) -> (r: &str)
        ensures
            r@ == self@.codex_home,
    {
        self.codex_home.as_str()
    }

    pub fn thread_goals(&self) -> (r: &GoalStore)
        requires
            self.wf(),
        ensures
            r.wf(),
            r@ == self@.goals,
    {
        &self.thread_goals
    }

    pub fn memories(&self) -> &MemoryStore {
        &self.memories
    }

    // -----------------------------------------------------------------------
    // Backfill: the browser build has nothing to backfill
    // -----------------------------------------------------------------------

    pub fn clear_memory_data_in_sqlite_home(sqlite_home: &str) -> (r: bool)
        ensures
            !r,
    {
        false
    }

    pub fn get_backfill_state(&self) -> (r: BackfillState)
        ensures
            r.status == BackfillStatus::Pending,
            r.last_watermark is None,
            r.last_success_at is None,
    {
        BackfillState::default()
    }

    pub fn try_claim_backfill(&self, lease_seconds: i64) -> (r: bool)
        ensures
            !r,
    {
        false
    }

    pub fn mark_backfill_running(&self) {
    }

    pub fn checkpoint_backfill(&self, watermark: &str) {
    }

    pub fn mark_backfill_complete(&self, last_watermark: Option<&str>) {
    }

    // -----------------------------------------------------------------------
    // Threads
    // -----------------------------------------------------------------------

    /// The stored record of thread `id`.
    pub fn get_thread(&self, id: &str) -> (r: Option<ThreadMetadata>)
        requires
            self.wf(),
        ensures
            match r {
                Some(t) => self@.threads.contains_key(id@) && t@ == self@.threads[id@],
                None => !self@.threads.contains_key(id@),
            },
    {
        match self.threads.get(id) {
            Some(t) => Some(t.duplicate()),
            None => None,
        }
    }

    /// Where the rollout of thread `id` is stored.
    pub fn find_rollout_path_by_id(&self, id: &str) -> (r: Option<String>)
        requires
            self.wf(),
        ensures
            match r {
                Some(p) => self@.threads.contains_key(id@) && p@ == self@.threads[id@].rollout_path,
                None => !self@.threads.contains_key(id@),
            },
    {
        match self.threads.get(id) {
            Some(t) => Some(clone_string(&t.rollout_path)),
            None => None,
        }
    }

    /// Stores `metadata` under its id, in place of any record kept there.
    pub fn upsert_thread(&mut self, metadata: &ThreadMetadata)
        requires
            old(self).wf(),
        ensures
            final(self).wf(),
            final(self)@ == with_upserted(old(self)@, metadata@),
    {
        proof {
            self.lemma_consistent();
            self.threads.lemma_rows();
        }
        let ghost before = *self;
        let key = clone_string(&metadata.id);
        let replaced = self.threads.insert(key, metadata.duplicate());
        proof {
            let keys = before.threads.keys();
            let rows = before.threads.values();
            let k = metadata@.id;
            if replaced {
                let q = position(keys, k);
                let p = thread_index(rows, k);
                assert(keys[q] == rows[q].id);
                assert(keys[p] == rows[p].id);
                assert(p == q) by {
                    if p < q {
                        assert(keys[p] != keys[q]);
                    } else if p > q {
                        assert(keys[q] != keys[p]);
                    }
                }
            }
            assert forall|i: int| 0 <= i < self.threads.keys().len() implies #[trigger] self.threads.keys()[i]
                == self.threads.values()[i].id by {
                if i < keys.len() {
                    assert(keys[i] == rows[i].id);
                }
            }
        }
        assert(self@ =~= (StateView {
            threads: before@.threads.insert(metadata@.id, metadata@),
            thread_rows: self.threads.values(),
            ..before@
        }));
    }

    /// Stores `metadata` unless a record is kept under its id; tells whether
    /// it stored it.
    pub fn insert_thread_if_absent(&mut self, metadata: &ThreadMetadata) -> (r: bool)
        requires
            old(self).wf(),
        ensures
            final(self).wf(),
            r == !old(self)@.threads.contains_key(metadata@.id),
            r ==> final(self)@ == (StateView {
                threads: old(self)@.threads.insert(metadata@.id, metadata@),
                thread_rows: old(self)@.thread_rows.push(metadata@),
                ..old(self)@
            }),
            !r ==> final(self)@ == old(self)@,
    {
        if self.threads.find(metadata.id.as_str()).is_some() {
            return false;
        }
        self.upsert_thread(metadata);
        true
    }

    /// Replaces the record at place `i` with `t`, which has the same id.
    fn replace_thread_at(&mut self, i: usize, t: ThreadMetadata)
        requires
            old(self).wf(),
            i < old(self)@.thread_rows.len(),
            t@.id == old(self)@.thread_rows[i as int].id,
        ensures
            final(self).wf(),
            final(self)@ == (StateView {
                threads: old(self)@.threads.insert(t@.id, t@),
                thread_rows: old(self)@.thread_rows.update(i as int, t@),
                ..old(self)@
            }),
    {
        proof {
            self.threads.lemma_rows();
        }
        let ghost before = *self;
        let ghost tv = t@;
        assert(self.threads.keys()[i as int] == tv.id);
        self.threads.set_value(i, t);
        proof {
            let keys = before.threads.keys();
            let rows = before.threads.values();
            assert forall|j: int| 0 <= j < self.threads.keys().len() implies #[trigger] self.threads.keys()[j]
                == self.threads.values()[j].id by {
                assert(keys[j] == rows[j].id);
            }
        }
        assert(self@ =~= (StateView {
            threads: before@.threads.insert(tv.id, tv),
            thread_rows: before@.thread_rows.update(i as int, tv),
            ..before@
        }));
    }

    /// The place of thread `id` among the stored rows.
    fn thread_place(&self, id: &str) -> (r: Option<usize>)
        requires
            self.wf(),
        ensures
            match r {
                Some(i) => self@.threads.contains_key(id@) && i == thread_index(self@.thread_rows, id@)
                    && i < self@.thread_rows.len() && self@.thread_rows[i as int] == self@.threads[id@]
                    && self@.thread_rows[i as int].id == id@,
                None => !self@.threads.contains_key(id@),
            },
    {
        proof {
            self.lemma_consistent();
            self.threads.lemma_rows();
        }
        match self.threads.find(id) {
            Some(i) => {
                proof {
                    let rows = self@.thread_rows;
                    let keys = self.threads.keys();
                    assert(keys[i as int] == rows[i as int].id);
                    let p = thread_index(rows, id@);
                    assert(p == i) by {
                        if p < i {
                            assert(rows[p].id != rows[i as int].id);
                        } else if p > i {
                            assert(rows[i as int].id != rows[p].id);
                        }
                    }
                }
                Some(i)
            },
            None => None,
        }
    }
}

/// The store with thread `id`'s record replaced by `t`, in its place.
pub open spec fn with_thread(s: StateView, id: Seq<char>, t: ThreadMetadataView) -> StateView {
    StateView {
        threads: s.threads.insert(id, t),
        thread_rows: s.thread_rows.update(thread_index(s.thread_rows, id), t),
        ..s
    }
}

/// The store without thread `id` and its goal.
pub open spec fn without_thread(s: StateView, id: Seq<char>) -> StateView {
    StateView {
        threads: s.threads.remove(id),
        thread_rows: if s.threads.contains_key(id) {
            s.thread_rows.remove(thread_index(s.thread_rows, id))
        } else {
            s.thread_rows
        },
        goals: s.goals.remove(id),
        ..s
    }
}

/// A git field after an update: the new value where one is given (which may be
/// nothing), else the old one.
pub open spec fn git_update(old: Option<Seq<char>>, update: Option<Option<&str>>) -> Option<Seq<char>> {
    match update {
        Some(Some(v)) => Some(v@),
        Some(None) => None,
        None => old,
    }
}

fn apply_git_update(field: &mut Option<String>, update: Option<Option<&str>>)
    ensures
        opt_view(*final(field)) == git_update(opt_view(*old(field)), update),
{
    match update {
        Some(Some(v)) => {
            *field = Some(owned(v));
        },
        Some(None) => {
            *field = None;
        },
        None => {},
    }
}

/// The first of `rows` with title `title`.
pub open spec fn first_titled(rows: Seq<ThreadMetadataView>, title: Seq<char>) -> Option<ThreadMetadataView>
    decreases rows.len(),
{
    if rows.len() == 0 {
        None
    } else if rows[0].title == title {
        Some(rows[0])
    } else {
        first_titled(rows.drop_first(), title)
    }
}

impl StateRuntime {
    /// Gives thread `id` the preview `preview` (trimmed), where it is kept,
    /// has none yet, and the preview is not blank. Tells whether it did.
    pub fn set_thread_preview_if_empty(&mut self, id: &str, preview: &str) -> (r: bool)
        requires
            old(self).wf(),
        ensures
            final(self).wf(),
            r == (trim_seq(preview@).len() > 0 && old(self)@.threads.contains_key(id@)
                && old(self)@.threads[id@].preview is None),
            r ==> final(self)@ == with_thread(
                old(self)@,
                id@,
                ThreadMetadataView { preview: Some(trim_seq(preview@)), ..old(self)@.threads[id@] },
            ),
            !r ==> final(self)@ == old(self)@,
    {
        let preview = trim(preview);
        if preview.unicode_len() == 0 {
            return false;
        }
        match self.thread_place(id) {
            Some(i) => {
                if self.threads.value_of(i).preview.is_some() {
                    return false;
                }
                let mut t = self.threads.value_of(i).duplicate();
                t.preview = Some(owned(preview));
                self.replace_thread_at(i, t);
                true
            },
            None => false,
        }
    }

    /// Gives thread `id` the title `title`, where it is kept. Tells whether it
    /// is kept.
    pub fn update_thread_title(&mut self, id: &str, title: &str) -> (r: bool)
        requires
            old(self).wf(),
        ensures
            final(self).wf(),
            r == old(self)@.threads.contains_key(id@),
            r ==> final(self)@ == with_thread(
                old(self)@,
                id@,
                ThreadMetadataView { title: title@, ..old(self)@.threads[id@] },
            ),
            !r ==> final(self)@ == old(self)@,
    {
        match self.thread_place(id) {
            Some(i) => {
                let mut t = self.threads.value_of(i).duplicate();
                t.title = owned(title);
                self.replace_thread_at(i, t);
                true
            },
            None => false,
        }
    }

    /// Sets the update time of thread `id`, where it is kept. Tells whether it
    /// is kept.
    pub fn touch_thread_updated_at(&mut self, id: &str, updated_at: i64) -> (r: bool)
        requires
            old(self).wf(),
        ensures
            final(self).wf(),
            r == old(self)@.threads.contains_key(id@),
            r ==> final(self)@ == with_thread(
                old(self)@,
                id@,
                ThreadMetadataView { updated_at, ..old(self)@.threads[id@] },
            ),
            !r ==> final(self)@ == old(self)@,
    {
        match self.thread_place(id) {
            Some(i) => {
                let mut t = self.threads.value_of(i).duplicate();
                t.updated_at = updated_at;
                self.replace_thread_at(i, t);
                true
            },
            None => false,
        }
    }

    /// Sets the git facts of thread `id` that are given (a given nothing
    /// clears the fact), where it is kept. Tells whether it is kept.
    pub fn update_thread_git_info(
        &mut self,
        id: &str,
        git_sha: Option<Option<&str>>,
        git_branch: Option<Option<&str>>,
        git_origin_url: Option<Option<&str>>,
    ) -> (r: bool)
        requires
            old(self).wf(),
        ensures
            final(self).wf(),
            r == old(self)@.threads.contains_key(id@),
            r ==> final(self)@ == with_thread(
                old(self)@,
                id@,
                ThreadMetadataView {
                    git_sha: git_update(old(self)@.threads[id@].git_sha, git_sha),
                    git_branch: git_update(old(self)@.threads[id@].git_branch, git_branch),
                    git_origin_url: git_update(old(self)@.threads[id@].git_origin_url, git_origin_url),
                    ..old(self)@.threads[id@]
                },
            ),
            !r ==> final(self)@ == old(self)@,
    {
        match self.thread_place(id) {
            Some(i) => {
                let mut t = self.threads.value_of(i).duplicate();
                apply_git_update(&mut t.git_sha, git_sha);
                apply_git_update(&mut t.git_branch, git_branch);
                apply_git_update(&mut t.git_origin_url, git_origin_url);
                self.replace_thread_at(i, t);
                true
            },
            None => false,
        }
    }

    /// Marks thread `id` archived at `archived_at`, with its rollout moved to
    /// `rollout_path`, where it is kept.
    pub fn mark_archived(&mut self, id: &str, rollout_path: &str, archived_at: i64)
        requires
            old(self).wf(),
        ensures
            final(self).wf(),
            old(self)@.threads.contains_key(id@) ==> final(self)@ == with_thread(
                old(self)@,
                id@,
                ThreadMetadataView {
                    archived_at: Some(archived_at),
                    rollout_path: rollout_path@,
                    ..old(self)@.threads[id@]
                },
            ),
            !old(self)@.threads.contains_key(id@) ==> final(self)@ == old(self)@,
    {
        if let Some(i) = self.thread_place(id) {
            let mut t = self.threads.value_of(i).duplicate();
            t.archived_at = Some(archived_at);
            t.rollout_path = owned(rollout_path);
            self.replace_thread_at(i, t);
        }
    }

    /// Marks thread `id` not archived, with its rollout moved to
    /// `rollout_path`, where it is kept.
    pub fn mark_unarchived(&mut self, id: &str, rollout_path: &str)
        requires
            old(self).wf(),
        ensures
            final(self).wf(),
            old(self)@.threads.contains_key(id@) ==> final(self)@ == with_thread(
                old(self)@,
                id@,
                ThreadMetadataView { archived_at: None, rollout_path: rollout_path@, ..old(self)@.threads[id@] },
            ),
            !old(self)@.threads.contains_key(id@) ==> final(self)@ == old(self)@,
    {
        if let Some(i) = self.thread_place(id) {
            let mut t = self.threads.value_of(i).duplicate();
            t.archived_at = None;
            t.rollout_path = owned(rollout_path);
            self.replace_thread_at(i, t);
        }
    }

    /// Forgets thread `id` and its goal; counts the records removed.
    pub fn delete_thread(&mut self, id: &str) -> (r: u64)
        requires
            old(self).wf(),
        ensures
            final(self).wf(),
            r == (if old(self)@.threads.contains_key(id@) { 1u64 } else { 0u64 }),
            final(self)@ == without_thread(old(self)@, id@),
    {
        proof {
            self.threads.lemma_rows();
        }
        let ghost before = *self;
        let place = self.thread_place(id);
        let removed = self.threads.remove(id);
        let _ = self.thread_goals.delete_thread_goal(id);
        proof {
            let keys = before.threads.keys();
            let rows = before.threads.values();
            if removed is Some {
                let q = position(keys, id@);
                let p = thread_index(rows, id@);
                assert(p == place.unwrap());
                assert(keys[q] == rows[q].id);
                assert(keys[p] == rows[p].id);
                assert(p == q) by {
                    if p < q {
                        assert(keys[p] != keys[q]);
                    } else if p > q {
                        assert(keys[q] != keys[p]);
                    }
                }
                assert forall|j: int| 0 <= j < self.threads.keys().len() implies #[trigger] self.threads.keys()[j]
                    == self.threads.values()[j].id by {
                    let j2 = if j < q { j } else { j + 1 };
                    assert(keys[j2] == rows[j2].id);
                    assert(self.threads.keys()[j] == keys[j2]);
                    assert(self.threads.values()[j] == rows[j2]);
                }
            }
        }
        assert(self@ =~= (StateView {
            threads: before@.threads.remove(id@),
            thread_rows: self.threads.values(),
            goals: before@.goals.remove(id@),
            ..before@
        }));
        match removed {
            Some(_) => 1,
            None => 0,
        }
    }

    /// The first stored thread (in storage order) titled exactly `title`.
    pub fn find_thread_by_exact_title(&self, title: &str) -> (r: Option<ThreadMetadata>)
        requires
            self.wf(),
        ensures
            match r {
                Some(t) => first_titled(self@.thread_rows, title@) == Some(t@),
                None => first_titled(self@.thread_rows, title@) is None,
            },
    {
        let n = self.threads.len();
        let ghost rows = self@.thread_rows;
        let mut i: usize = 0;
        assert(rows.subrange(0, n as int) =~= rows);
        while i < n
            invariant
                n == rows.len(),
                rows == self@.thread_rows,
                i <= n,
                first_titled(rows, title@) == first_titled(rows.subrange(i as int, n as int), title@),
            decreases n - i,
        {
            let t = self.threads.value_of(i);
            let ghost rest = rows.subrange(i as int, n as int);
            assert(rest[0] == rows[i as int]);
            assert(rest.drop_first() =~= rows.subrange(i + 1, n as int));
            if crate::text::str_eq(t.title.as_str(), title) {
                return Some(t.duplicate());
            }
            i = i + 1;
        }
        None
    }

    // -----------------------------------------------------------------------
    // Memory modes
    // -----------------------------------------------------------------------

    pub fn get_thread_memory_mode(&self, id: &str) -> (r: Option<String>)
        requires
            self.wf(),
        ensures
            match r {
                Some(m) => self@.memory_modes.contains_key(id@) && m@ == self@.memory_modes[id@],
                None => !self@.memory_modes.contains_key(id@),
            },
    {
        match self.thread_memory_modes.get(id) {
            Some(m) => Some(clone_string(m)),
            None => None,
        }
    }

    /// Records the memory mode of thread `id`; it always succeeds.
    pub fn set_thread_memory_mode(&mut self, id: &str, memory_mode: &str) -> (r: bool)
        requires
            old(self).wf(),
        ensures
            final(self).wf(),
            r,
            final(self)@ == (StateView {
                memory_modes: old(self)@.memory_modes.insert(id@, memory_mode@),
                ..old(self)@
            }),
    {
        let ghost before = *self;
        let _ = self.thread_memory_modes.insert(owned(id), owned(memory_mode));
        assert(self@ =~= (StateView {
            memory_modes: before@.memory_modes.insert(id@, memory_mode@),
            ..before@
        }));
        true
    }

    // -----------------------------------------------------------------------
    // Remote-control enrollments
    // -----------------------------------------------------------------------

    pub fn get_remote_control_enrollment(
        &self,
        websocket_url: &str,
        account_id: &str,
        app_server_client_name: Option<&str>,
    ) -> (r: Option<RemoteControlEnrollmentRecord>)
        requires
            self.wf(),
        ensures
            ({
                let k = remote_control_key_spec(
                    websocket_url@,
                    account_id@,
                    match app_server_client_name {
                        Some(c) => Some(c@),
                        None => None,
                    },
                );
                match r {
                    Some(e) => self@.enrollments.contains_key(k) && e@ == self@.enrollments[k],
                    None => !self@.enrollments.contains_key(k),
                }
            }),
    {
        let key = remote_control_key(websocket_url, account_id, app_server_client_name);
        match self.remote_control_enrollments.get(key.as_str()) {
            Some(e) => Some(clone_enrollment(e)),
            None => None,
        }
    }

    /// Stores `enrollment` under its key, in place of any kept there.
    pub fn upsert_remote_control_enrollment(&mut self, enrollment: &RemoteControlEnrollmentRecord)
        requires
            old(self).wf(),
        ensures
            final(self).wf(),
            final(self)@ == (StateView {
                enrollments: old(self)@.enrollments.insert(enrollment_key(enrollment@), enrollment@),
                ..old(self)@
            }),
    {
        let ghost before = *self;
        let key = remote_control_key(
            enrollment.websocket_url.as_str(),
            enrollment.account_id.as_str(),
            match &enrollment.app_server_client_name {
                Some(c) => Some(c.as_str()),
                None => None,
            },
        );
        assert(key@ == enrollment_key(enrollment@));
        let _ = self.remote_control_enrollments.insert(key, clone_enrollment(enrollment));
        assert(self@ =~= (StateView {
            enrollments: before@.enrollments.insert(enrollment_key(enrollment@), enrollment@),
            ..before@
        }));
    }

    /// Forgets the enrollment under the key of these three; counts the
    /// records removed.
    pub fn delete_remote_control_enrollment(
        &mut self,
        websocket_url: &str,
        account_id: &str,
        app_server_client_name: Option<&str>,
    ) -> (r: u64)
        requires
            old(self).wf(),
        ensures
            final(self).wf(),
            ({
                let k = remote_control_key_spec(
                    websocket_url@,
                    account_id@,
                    match app_server_client_name {
                        Some(c) => Some(c@),
                        None => None,
                    },
                );
                &&& r == (if old(self)@.enrollments.contains_key(k) { 1u64 } else { 0u64 })
                &&& final(self)@ == (StateView { enrollments: old(self)@.enrollments.remove(k), ..old(self)@ })
            }),
    {
        let ghost before = *self;
        let key = remote_control_key(websocket_url, account_id, app_server_client_name);
        let removed = self.remote_control_enrollments.remove(key.as_str());
        assert(self@ =~= (StateView { enrollments: before@.enrollments.remove(key@), ..before@ }));
        match removed {
            Some(_) => 1,
            None => 0,
        }
    }
}

// ---------------------------------------------------------------------------
// The spawn tree
// ---------------------------------------------------------------------------

/// The place of the edge of `child` among `rows`.
pub open spec fn edge_index(rows: Seq<SpawnEdgeView>, child: Seq<char>) -> int {
    choose|i: int| 0 <= i < rows.len() && rows[i].child == child
}

/// Whether an edge leads from `parent`, with `status` where one is asked for.
pub open spec fn edge_matches(
    e: SpawnEdgeView,
    parent: Seq<char>,
    status: Option<DirectionalThreadSpawnEdgeStatus>,
) -> bool {
    &&& e.parent == parent
    &&& match status {
        Some(st) => e.status == st,
        None => true,
    }
}

/// The children of `parent` along the matching edges, in storage order.
pub open spec fn children_of(
    rows: Seq<SpawnEdgeView>,
    parent: Seq<char>,
    status: Option<DirectionalThreadSpawnEdgeStatus>,
) -> Seq<Seq<char>>
    decreases rows.len(),
{
    if rows.len() == 0 {
        Seq::empty()
    } else {
        let rest = children_of(rows.drop_last(), parent, status);
        if edge_matches(rows.last(), parent, status) {
            rest.push(rows.last().child)
        } else {
            rest
        }
    }
}

/// The search of the spawn tree below the threads in `frontier`: the last
/// thread of `frontier` is taken off and its children are added both to
/// `frontier` and, in order, to `found`; at most `fuel` threads are taken.
pub open spec fn descend(
    rows: Seq<SpawnEdgeView>,
    status: Option<DirectionalThreadSpawnEdgeStatus>,
    frontier: Seq<Seq<char>>,
    found: Seq<Seq<char>>,
    fuel: nat,
) -> Seq<Seq<char>>
    decreases fuel,
{
    if fuel == 0 || frontier.len() == 0 {
        found
    } else {
        let cs = children_of(rows, frontier.last(), status);
        descend(rows, status, frontier.drop_last() + cs, found + cs, (fuel - 1) as nat)
    }
}

/// Each of `found` is reached from `root`: its edge is stored, matches, and
/// leads from `root` or from a thread found before it.
pub open spec fn reached_from(
    edges: Map<Seq<char>, SpawnEdgeView>,
    root: Seq<char>,
    status: Option<DirectionalThreadSpawnEdgeStatus>,
    found: Seq<Seq<char>>,
) -> bool {
    forall|j: int|
        0 <= j < found.len() ==> {
            &&& #[trigger] edges.contains_key(found[j])
            &&& edge_matches(edges[found[j]], edges[found[j]].parent, status)
            &&& (edges[found[j]].parent == root || exists|k: int|
                0 <= k < j && found[k] == edges[found[j]].parent)
        }
}

/// The first of `ids` whose stored thread has agent path `path`.
pub open spec fn first_with_path(
    ids: Seq<Seq<char>>,
    threads: Map<Seq<char>, ThreadMetadataView>,
    path: Seq<char>,
) -> Option<Seq<char>>
    decreases ids.len(),
{
    if ids.len() == 0 {
        None
    } else if threads.contains_key(ids[0]) && threads[ids[0]].agent_path == Some(path) {
        Some(ids[0])
    } else {
        first_with_path(ids.drop_first(), threads, path)
    }
}

proof fn lemma_children_edges(
    rows: Seq<SpawnEdgeView>,
    edges: Map<Seq<char>, SpawnEdgeView>,
    parent: Seq<char>,
    status: Option<DirectionalThreadSpawnEdgeStatus>,
)
    requires
        forall|i: int|
            0 <= i < rows.len() ==> #[trigger] edges.contains_key(rows[i].child) && edges[rows[i].child]
                == rows[i],
    ensures
        forall|j: int|
            0 <= j < children_of(rows, parent, status).len() ==> {
                let c = #[trigger] children_of(rows, parent, status)[j];
                &&& edges.contains_key(c)
                &&& edge_matches(edges[c], parent, status)
            },
    decreases rows.len(),
{
    if rows.len() > 0 {
        let prev = rows.drop_last();
        assert forall|i: int| 0 <= i < prev.len() implies #[trigger] edges.contains_key(prev[i].child)
            && edges[prev[i].child] == prev[i] by {
            assert(prev[i] == rows[i]);
        }
        lemma_children_edges(prev, edges, parent, status);
        let last = rows.last();
        assert(edges.contains_key(rows[rows.len() - 1].child));
        let cs = children_of(rows, parent, status);
        let pcs = children_of(prev, parent, status);
        assert forall|j: int| 0 <= j < cs.len() implies {
            let c = #[trigger] cs[j];
            &&& edges.contains_key(c)
            &&& edge_matches(edges[c], parent, status)
        } by {
            if j < pcs.len() {
                assert(cs[j] == pcs[j]);
            } else {
                assert(cs[j] == last.child);
            }
        }
    }
}

proof fn lemma_reached_push(
    edges: Map<Seq<char>, SpawnEdgeView>,
    root: Seq<char>,
    status: Option<DirectionalThreadSpawnEdgeStatus>,
    found: Seq<Seq<char>>,
    c: Seq<char>,
)
    requires
        reached_from(edges, root, status, found),
        edges.contains_key(c),
        edge_matches(edges[c], edges[c].parent, status),
        edges[c].parent == root || found.contains(edges[c].parent),
    ensures
        reached_from(edges, root, status, found.push(c)),
{
    let nf = found.push(c);
    assert forall|q: int| 0 <= q < nf.len() implies {
        &&& #[trigger] edges.contains_key(nf[q])
        &&& edge_matches(edges[nf[q]], edges[nf[q]].parent, status)
        &&& (edges[nf[q]].parent == root || exists|k: int| 0 <= k < q && nf[k] == edges[nf[q]].parent)
    } by {
        if q < found.len() {
            assert(nf[q] == found[q]);
            assert(edges.contains_key(found[q]));
            if edges[nf[q]].parent != root {
                let k = choose|k: int| 0 <= k < q && found[k] == edges[found[q]].parent;
                assert(nf[k] == found[k]);
            }
        } else {
            if edges[c].parent != root {
                let k = choose|k: int| 0 <= k < found.len() && found[k] == edges[c].parent;
                assert(nf[k] == found[k]);
            }
        }
    }
}

fn status_matches(
    e: DirectionalThreadSpawnEdgeStatus,
    status: Option<DirectionalThreadSpawnEdgeStatus>,
) -> (r: bool)
    ensures
        r == match status {
            Some(st) => e == st,
            None => true,
        },
{
    match status {
        Some(st) => e == st,
        None => true,
    }
}

impl StateRuntime {
    /// Records that `child` was spawned by `parent`, in place of any edge
    /// kept for `child`.
    pub fn upsert_thread_spawn_edge(
        &mut self,
        parent: &str,
        child: &str,
        status: DirectionalThreadSpawnEdgeStatus,
    )
        requires
            old(self).wf(),
        ensures
            final(self).wf(),
            ({
                let e = SpawnEdgeView { child: child@, parent: parent@, status };
                final(self)@ == (StateView {
                    spawn_edges: old(self)@.spawn_edges.insert(child@, e),
                    edge_rows: if old(self)@.spawn_edges.contains_key(child@) {
                        old(self)@.edge_rows.update(edge_index(old(self)@.edge_rows, child@), e)
                    } else {
                        old(self)@.edge_rows.push(e)
                    },
                    ..old(self)@
                })
            }),
    {
        proof {
            self.spawn_edges.lemma_rows();
        }
        let ghost before = *self;
        let edge = SpawnEdge { child: owned(child), parent: owned(parent), status };
        let replaced = self.spawn_edges.insert(owned(child), edge);
        proof {
            let keys = before.spawn_edges.keys();
            let rows = before.spawn_edges.values();
            if replaced {
                let q = position(keys, child@);
                let p = edge_index(rows, child@);
                assert(keys[q] == rows[q].child);
                assert(keys[p] == rows[p].child);
                assert(p == q) by {
                    if p < q {
                        assert(keys[p] != keys[q]);
                    } else if p > q {
                        assert(keys[q] != keys[p]);
                    }
                }
            }
            assert forall|i: int| 0 <= i < self.spawn_edges.keys().len() implies #[trigger] self.spawn_edges.keys()[i]
                == self.spawn_edges.values()[i].child by {
                if i < keys.len() {
                    assert(keys[i] == rows[i].child);
                }
            }
        }
        assert(self@ =~= (StateView {
            spawn_edges: before@.spawn_edges.insert(child@, SpawnEdgeView { child: child@, parent: parent@, status }),
            edge_rows: self.spawn_edges.values(),
            ..before@
        }));
    }

    /// Sets the status of the edge of `child`, where one is kept.
    pub fn set_thread_spawn_edge_status(&mut self, child: &str, status: DirectionalThreadSpawnEdgeStatus)
        requires
            old(self).wf(),
        ensures
            final(self).wf(),
            old(self)@.spawn_edges.contains_key(child@) ==> ({
                let e = SpawnEdgeView { status, ..old(self)@.spawn_edges[child@] };
                final(self)@ == (StateView {
                    spawn_edges: old(self)@.spawn_edges.insert(child@, e),
                    edge_rows: old(self)@.edge_rows.update(edge_index(old(self)@.edge_rows, child@), e),
                    ..old(self)@
                })
            }),
            !old(self)@.spawn_edges.contains_key(child@) ==> final(self)@ == old(self)@,
    {
        proof {
            self.spawn_edges.lemma_rows();
        }
        let ghost before = *self;
        match self.spawn_edges.find(child) {
            Some(i) => {
                let old_edge = self.spawn_edges.value_of(i);
                let edge = SpawnEdge {
                    child: clone_string(&old_edge.child),
                    parent: clone_string(&old_edge.parent),
                    status,
                };
                self.spawn_edges.set_value(i, edge);
                proof {
                    let keys = before.spawn_edges.keys();
                    let rows = before.spawn_edges.values();
                    let p = edge_index(rows, child@);
                    assert(keys[i as int] == rows[i as int].child);
                    assert(keys[p] == rows[p].child);
                    assert(p == i) by {
                        if p < i {
                            assert(keys[p] != keys[i as int]);
                        } else if p > i {
                            assert(keys[i as int] != keys[p]);
                        }
                    }
                    assert forall|j: int| 0 <= j < self.spawn_edges.keys().len() implies #[trigger] self.spawn_edges.keys()[j]
                        == self.spawn_edges.values()[j].child by {
                        assert(keys[j] == rows[j].child);
                    }
                }
                assert(self@ =~= (StateView {
                    spawn_edges: before@.spawn_edges.insert(
                        child@,
                        SpawnEdgeView { status, ..before@.spawn_edges[child@] },
                    ),
                    edge_rows: self.spawn_edges.values(),
                    ..before@
                }));
            },
            None => {},
        }
    }

    fn children_matching(
        &self,
        parent: &str,
        status: Option<DirectionalThreadSpawnEdgeStatus>,
    ) -> (r: Vec<String>)
        requires
            self.wf(),
        ensures
            crate::text::string_views(r@) == children_of(self@.edge_rows, parent@, status),
    {
        let n = self.spawn_edges.len();
        let ghost rows = self@.edge_rows;
        let mut out: Vec<String> = Vec::new();
        let mut i: usize = 0;
        while i < n
            invariant
                n == rows.len(),
                rows == self@.edge_rows,
                i <= n,
                crate::text::string_views(out@) == children_of(rows.subrange(0, i as int), parent@, status),
            decreases n - i,
        {
            let e = self.spawn_edges.value_of(i);
            assert(rows.subrange(0, i + 1).drop_last() =~= rows.subrange(0, i as int));
            if crate::text::str_eq(e.parent.as_str(), parent) && status_matches(e.status, status) {
                out.push(clone_string(&e.child));
                assert(crate::text::string_views(out@) =~= children_of(rows.subrange(0, i as int), parent@, status).push(e.child@));
            }
            i = i + 1;
        }
        assert(rows.subrange(0, n as int) =~= rows);
        out
    }

    /// The children of `parent` along edges with `status`, in storage order.
    pub fn list_thread_spawn_children_with_status(
        &self,
        parent: &str,
        status: DirectionalThreadSpawnEdgeStatus,
    ) -> (r: Vec<String>)
        requires
            self.wf(),
        ensures
            crate::text::string_views(r@) == children_of(self@.edge_rows, parent@, Some(status)),
    {
        self.children_matching(parent, Some(status))
    }

    /// The children of `parent`, in storage order.
    pub fn list_thread_spawn_children(&self, parent: &str) -> (r: Vec<String>)
        requires
            self.wf(),
        ensures
            crate::text::string_views(r@) == children_of(self@.edge_rows, parent@, None),
    {
        self.children_matching(parent, None)
    }

    fn descendants_matching(
        &self,
        root: &str,
        status: Option<DirectionalThreadSpawnEdgeStatus>,
    ) -> (r: Vec<String>)
        requires
            self.wf(),
        ensures
            crate::text::string_views(r@) == descend(
                self@.edge_rows,
                status,
                seq![root@],
                Seq::empty(),
                (self@.edge_rows.len() + 1) as nat,
            ),
            reached_from(self@.spawn_edges, root@, status, crate::text::string_views(r@)),
    {
        let ghost rows = self@.edge_rows;
        let ghost edges = self@.spawn_edges;
        proof {
            self.lemma_consistent();
        }
        let mut fuel: u128 = self.spawn_edges.len() as u128 + 1;
        let mut result: Vec<String> = Vec::new();
        let mut frontier: Vec<String> = Vec::new();
        frontier.push(owned(root));
        assert(crate::text::string_views(frontier@) =~= seq![root@]);
        assert(crate::text::string_views(result@) =~= Seq::<Seq<char>>::empty());
        while fuel > 0 && frontier.len() > 0
            invariant
                self.wf(),
                rows == self@.edge_rows,
                edges == self@.spawn_edges,
                edges_consistent(edges, rows),
                descend(rows, status, crate::text::string_views(frontier@), crate::text::string_views(result@), fuel as nat)
                    == descend(rows, status, seq![root@], Seq::empty(), (rows.len() + 1) as nat),
                reached_from(edges, root@, status, crate::text::string_views(result@)),
                forall|j: int|
                    0 <= j < crate::text::string_views(frontier@).len() ==> #[trigger] crate::text::string_views(
                        frontier@,
                    )[j] == root@ || crate::text::string_views(result@).contains(
                        crate::text::string_views(frontier@)[j],
                    ),
            decreases fuel,
        {
            let ghost fv = crate::text::string_views(frontier@);
            let ghost rv = crate::text::string_views(result@);
            let parent = frontier.pop().unwrap();
            assert(parent@ == fv[fv.len() - 1]);
            assert(crate::text::string_views(frontier@) =~= fv.drop_last());
            let children = self.children_matching(parent.as_str(), status);
            let ghost cs = crate::text::string_views(children@);
            proof {
                lemma_children_edges(rows, edges, parent@, status);
            }
            let mut j: usize = 0;
            while j < children.len()
                invariant
                    self.wf(),
                    rows == self@.edge_rows,
                    edges == self@.spawn_edges,
                    cs == crate::text::string_views(children@),
                    cs.len() == children@.len(),
                    cs == children_of(rows, parent@, status),
                    j <= children@.len(),
                    crate::text::string_views(frontier@) == fv.drop_last() + cs.subrange(0, j as int),
                    crate::text::string_views(result@) == rv + cs.subrange(0, j as int),
                    parent@ == root@ || rv.contains(parent@),
                    forall|i: int|
                        0 <= i < cs.len() ==> {
                            let c = #[trigger] cs[i];
                            &&& edges.contains_key(c)
                            &&& edge_matches(edges[c], parent@, status)
                        },
                    reached_from(edges, root@, status, crate::text::string_views(result@)),
                    forall|i: int|
                        0 <= i < crate::text::string_views(frontier@).len() ==> #[trigger] crate::text::string_views(
                            frontier@,
                        )[i] == root@ || crate::text::string_views(result@).contains(
                            crate::text::string_views(frontier@)[i],
                        ),
                decreases children@.len() - j,
            {
                let ghost f0 = crate::text::string_views(frontier@);
                let ghost r0 = crate::text::string_views(result@);
                let c = &children[j];
                assert(c@ == cs[j as int]);
                frontier.push(clone_string(c));
                result.push(clone_string(c));
                proof {
                    let f1 = crate::text::string_views(frontier@);
                    let r1 = crate::text::string_views(result@);
                    assert(f1 =~= f0.push(c@));
                    assert(r1 =~= r0.push(c@));
                    assert(f1 =~= fv.drop_last() + cs.subrange(0, j + 1));
                    assert(r1 =~= rv + cs.subrange(0, j + 1));
                    if parent@ != root@ {
                        let k = choose|k: int| 0 <= k < rv.len() && rv[k] == parent@;
                        assert(r0[k] == rv[k]);
                        assert(r0.contains(parent@));
                    }
                    lemma_reached_push(edges, root@, status, r0, c@);
                    assert forall|i: int| 0 <= i < f1.len() implies #[trigger] f1[i] == root@ || r1.contains(f1[i]) by {
                        if i < f0.len() {
                            assert(f1[i] == f0[i]);
                            if f0[i] != root@ {
                                let k = choose|k: int| 0 <= k < r0.len() && r0[k] == f0[i];
                                assert(r1[k] == r0[k]);
                            }
                        } else {
                            assert(r1[r0.len() as int] == c@);
                        }
                    }
                }
                j = j + 1;
            }
            proof {
                assert(cs.subrange(0, cs.len() as int) =~= cs);
            }
            fuel = fuel - 1;
        }
        result
    }

    /// The threads below `root` in the spawn tree along edges with `status`,
    /// in the order of a depth-first search that takes the last found thread
    /// next (see `descend`). The search takes at most one thread more than
    /// there are edges, which covers every tree of edges.
    pub fn list_thread_spawn_descendants_with_status(
        &self,
        root: &str,
        status: DirectionalThreadSpawnEdgeStatus,
    ) -> (r: Vec<String>)
        requires
            self.wf(),
        ensures
            crate::text::string_views(r@) == descend(
                self@.edge_rows,
                Some(status),
                seq![root@],
                Seq::empty(),
                (self@.edge_rows.len() + 1) as nat,
            ),
            reached_from(self@.spawn_edges, root@, Some(status), crate::text::string_views(r@)),
    {
        self.descendants_matching(root, Some(status))
    }

    /// The threads below `root` in the spawn tree (see
    /// `list_thread_spawn_descendants_with_status`).
    pub fn list_thread_spawn_descendants(&self, root: &str) -> (r: Vec<String>)
        requires
            self.wf(),
        ensures
            crate::text::string_views(r@) == descend(
                self@.edge_rows,
                None,
                seq![root@],
                Seq::empty(),
                (self@.edge_rows.len() + 1) as nat,
            ),
            reached_from(self@.spawn_edges, root@, None, crate::text::string_views(r@)),
    {
        self.descendants_matching(root, None)
    }

    fn find_thread_by_path(&self, ids: Vec<String>, agent_path: &str) -> (r: Option<String>)
        requires
            self.wf(),
        ensures
            opt_view(r) == first_with_path(crate::text::string_views(ids@), self@.threads, agent_path@),
    {
        let ghost iv = crate::text::string_views(ids@);
        let n = ids.len();
        let mut i: usize = 0;
        assert(iv.subrange(0, n as int) =~= iv);
        while i < n
            invariant
                self.wf(),
                n == ids@.len(),
                iv == crate::text::string_views(ids@),
                i <= n,
                first_with_path(iv, self@.threads, agent_path@) == first_with_path(
                    iv.subrange(i as int, n as int),
                    self@.threads,
                    agent_path@,
                ),
            decreases n - i,
        {
            let ghost rest = iv.subrange(i as int, n as int);
            assert(rest[0] == ids@[i as int]@);
            assert(rest.drop_first() =~= iv.subrange(i + 1, n as int));
            match self.threads.get(ids[i].as_str()) {
                Some(t) => {
                    let hit = match &t.agent_path {
                        Some(p) => crate::text::str_eq(p.as_str(), agent_path),
                        None => false,
                    };
                    if hit {
                        return Some(clone_string(&ids[i]));
                    }
                },
                None => {},
            }
            i = i + 1;
        }
        None
    }

    /// The first child of `parent` (in storage order) whose thread has agent
    /// path `agent_path`.
    pub fn find_thread_spawn_child_by_path(&self, parent: &str, agent_path: &str) -> (r: Option<String>)
        requires
            self.wf(),
        ensures
            opt_view(r) == first_with_path(children_of(self@.edge_rows, parent@, None), self@.threads, agent_path@),
    {
        let children = self.list_thread_spawn_children(parent);
        self.find_thread_by_path(children, agent_path)
    }

    /// The first thread below `root` (in the order of
    /// `list_thread_spawn_descendants`) whose thread has agent path
    /// `agent_path`.
    pub fn find_thread_spawn_descendant_by_path(&self, root: &str, agent_path: &str) -> (r: Option<String>)
        requires
            self.wf(),
        ensures
            opt_view(r) == first_with_path(
                descend(self@.edge_rows, None, seq![root@], Seq::empty(), (self@.edge_rows.len() + 1) as nat),
                self@.threads,
                agent_path@,
            ),
    {
        let descendants = self.list_thread_spawn_descendants(root);
        self.find_thread_by_path(descendants, agent_path)
    }
}

// ---------------------------------------------------------------------------
// Listing threads
// ---------------------------------------------------------------------------

/// Where a page of threads starts: after the sort time (milliseconds) of the
/// last thread of the previous page.
#[derive(Debug, Clone, Copy, PartialEq, Eq)]
pub struct Anchor {
    pub ts: i64,
}

/// One page of listed threads: the threads, where the next page starts if
/// threads were left out, and how many threads were past the anchor.
#[derive(Debug)]
pub struct ThreadsPage {
    pub items: Vec<ThreadMetadata>,
    pub next_anchor: Option<Anchor>,
    pub num_scanned_rows: usize,
}

/// Which threads a listing shows, and in what order.
pub struct ThreadFilterOptions<'a> {
    pub archived_only: bool,
    pub allowed_sources: &'a [String],
    pub model_providers: Option<&'a [String]>,
    pub cwd_filters: Option<&'a [String]>,
    pub anchor: Option<&'a Anchor>,
    pub sort_key: SortKey,
    pub sort_direction: SortDirection,
    pub search_term: Option<&'a str>,
}

pub open spec fn meta_views(v: Seq<ThreadMetadata>) -> Seq<ThreadMetadataView> {
    v.map_values(|t: ThreadMetadata| t@)
}

/// Whether `term` occurs in `text`, ASCII letters compared without case.
pub open spec fn mentions(text: Seq<char>, term: Seq<char>) -> bool {
    contains_seq(lower_seq(text), lower_seq(term))
}

/// Whether a listing with `f` shows thread `t`.
pub open spec fn passes(t: ThreadMetadataView, f: ThreadFilterOptions) -> bool {
    &&& f.archived_only == (t.archived_at is Some)
    &&& (f.allowed_sources@.len() == 0 || string_views(f.allowed_sources@).contains(t.source))
    &&& match f.model_providers {
        Some(ps) => string_views(ps@).contains(t.model_provider),
        None => true,
    }
    &&& match f.cwd_filters {
        Some(cs) => exists|i: int| 0 <= i < cs@.len() && same_path(#[trigger] cs@[i]@, t.cwd),
        None => true,
    }
    &&& match f.search_term {
        Some(term) => mentions(t.title, term@) || mentions(
            match t.preview {
                Some(p) => p,
                None => Seq::empty(),
            },
            term@,
        ),
        None => true,
    }
}

/// The threads of `rows` that a listing with `f` shows, in storage order.
pub open spec fn filter_threads(rows: Seq<ThreadMetadataView>, f: ThreadFilterOptions) -> Seq<ThreadMetadataView>
    decreases rows.len(),
{
    if rows.len() == 0 {
        Seq::empty()
    } else {
        let rest = filter_threads(rows.drop_last(), f);
        if passes(rows.last(), f) {
            rest.push(rows.last())
        } else {
            rest
        }
    }
}

pub open spec fn sort_time(t: ThreadMetadataView, key: SortKey) -> i64 {
    match key {
        SortKey::CreatedAt => t.created_at,
        SortKey::UpdatedAt => t.updated_at,
    }
}

/// `x` placed after every thread of `sorted` whose sort time is not later.
pub open spec fn insert_by_time(sorted: Seq<ThreadMetadataView>, x: ThreadMetadataView, key: SortKey) -> Seq<
    ThreadMetadataView,
>
    decreases sorted.len(),
{
    if sorted.len() == 0 {
        seq![x]
    } else if sort_time(x, key) < sort_time(sorted[0], key) {
        seq![x] + sorted
    } else {
        seq![sorted[0]] + insert_by_time(sorted.drop_first(), x, key)
    }
}

/// The threads earliest first by sort time; threads with the same time keep
/// their order (a stable sort).
pub open spec fn sort_by_time(s: Seq<ThreadMetadataView>, key: SortKey) -> Seq<ThreadMetadataView>
    decreases s.len(),
{
    if s.len() == 0 {
        Seq::empty()
    } else {
        insert_by_time(sort_by_time(s.drop_last(), key), s.last(), key)
    }
}

/// The threads in the asked order: sorted, and turned around for `Desc`.
pub open spec fn in_order(s: Seq<ThreadMetadataView>, key: SortKey, dir: SortDirection) -> Seq<ThreadMetadataView> {
    if dir == SortDirection::Desc {
        sort_by_time(s, key).reverse()
    } else {
        sort_by_time(s, key)
    }
}

/// Whether `t` comes after the anchor time `a` in the listing's order.
pub open spec fn beyond(t: ThreadMetadataView, a: i64, key: SortKey, dir: SortDirection) -> bool {
    if dir == SortDirection::Asc {
        sort_time(t, key) > a
    } else {
        sort_time(t, key) < a
    }
}

pub open spec fn keep_beyond(s: Seq<ThreadMetadataView>, a: i64, key: SortKey, dir: SortDirection) -> Seq<
    ThreadMetadataView,
>
    decreases s.len(),
{
    if s.len() == 0 {
        Seq::empty()
    } else {
        let rest = keep_beyond(s.drop_last(), a, key, dir);
        if beyond(s.last(), a, key, dir) {
            rest.push(s.last())
        } else {
            rest
        }
    }
}

/// Every thread that a listing with `f` shows, in order, from the anchor on.
pub open spec fn listed(rows: Seq<ThreadMetadataView>, f: ThreadFilterOptions) -> Seq<ThreadMetadataView> {
    let ordered = in_order(filter_threads(rows, f), f.sort_key, f.sort_direction);
    match f.anchor {
        Some(a) => keep_beyond(ordered, a.ts, f.sort_key, f.sort_direction),
        None => ordered,
    }
}

/// `page` is the first `page_size` of `all`; where threads were left out, the
/// next page starts after the last one shown (if any is shown).
pub open spec fn page_is(page: ThreadsPage, all: Seq<ThreadMetadataView>, page_size: int, key: SortKey) -> bool {
    &&& page.num_scanned_rows == all.len()
    &&& if all.len() > page_size {
        &&& meta_views(page.items@) == all.take(page_size)
        &&& page.next_anchor == if page_size > 0 {
            Some(Anchor { ts: sort_time(all[page_size - 1], key) })
        } else {
            None
        }
    } else {
        &&& meta_views(page.items@) == all
        &&& page.next_anchor is None
    }
}

fn slice_contains(v: &[String], x: &str) -> (r: bool)
    ensures
        r == string_views(v@).contains(x@),
{
    let mut i: usize = 0;
    while i < v.len()
        invariant
            i <= v@.len(),
            forall|j: int| 0 <= j < i ==> #[trigger] v@[j]@ != x@,
        decreases v.len() - i,
    {
        if crate::text::str_eq(v[i].as_str(), x) {
            assert(string_views(v@)[i as int] == x@);
            return true;
        }
        i = i + 1;
    }
    assert forall|j: int| 0 <= j < string_views(v@).len() implies string_views(v@)[j] != x@ by {
        assert(string_views(v@)[j] == v@[j]@);
    }
    false
}

fn slice_has_same_path(v: &[String], x: &str) -> (r: bool)
    ensures
        r == exists|i: int| 0 <= i < v@.len() && same_path(#[trigger] v@[i]@, x@),
{
    let mut i: usize = 0;
    while i < v.len()
        invariant
            i <= v@.len(),
            forall|j: int| 0 <= j < i ==> !same_path(#[trigger] v@[j]@, x@),
        decreases v.len() - i,
    {
        if paths_are_equal(v[i].as_str(), x) {
            return true;
        }
        i = i + 1;
    }
    false
}

fn mentions_term(text: &str, term: &str) -> (r: bool)
    ensures
        r == mentions(text@, term@),
{
    let t = to_ascii_lowercase(text);
    let q = to_ascii_lowercase(term);
    contains_str(t.as_str(), q.as_str())
}

fn thread_passes(t: &ThreadMetadata, f: &ThreadFilterOptions) -> (r: bool)
    ensures
        r == passes(t@, *f),
{
    if f.archived_only != t.archived_at.is_some() {
        return false;
    }
    if f.allowed_sources.len() > 0 && !slice_contains(f.allowed_sources, t.source.as_str()) {
        return false;
    }
    if let Some(ps) = f.model_providers {
        if !slice_contains(ps, t.model_provider.as_str()) {
            return false;
        }
    }
    if let Some(cs) = f.cwd_filters {
        if !slice_has_same_path(cs, t.cwd.as_str()) {
            return false;
        }
    }
    if let Some(term) = f.search_term {
        let in_title = mentions_term(t.title.as_str(), term);
        let in_preview = match &t.preview {
            Some(p) => mentions_term(p.as_str(), term),
            None => {
                let e = String::new();
                mentions_term(e.as_str(), term)
            },
        };
        return in_title || in_preview;
    }
    true
}

fn time_of(t: &ThreadMetadata, key: SortKey) -> (r: i64)
    ensures
        r == sort_time(t@, key),
{
    match key {
        SortKey::CreatedAt => t.created_at,
        SortKey::UpdatedAt => t.updated_at,
    }
}

proof fn lemma_insert_at_time(sorted: Seq<ThreadMetadataView>, x: ThreadMetadataView, key: SortKey, i: int)
    requires
        0 <= i <= sorted.len(),
        forall|j: int| 0 <= j < i ==> !(sort_time(x, key) < sort_time(#[trigger] sorted[j], key)),
        i < sorted.len() ==> sort_time(x, key) < sort_time(sorted[i], key),
    ensures
        insert_by_time(sorted, x, key) == sorted.insert(i, x),
    decreases i,
{
    if i == 0 {
        if sorted.len() == 0 {
            assert(sorted.insert(0, x) =~= seq![x]);
        } else {
            assert(sorted.insert(0, x) =~= seq![x] + sorted);
        }
    } else {
        let rest = sorted.drop_first();
        assert forall|j: int| 0 <= j < i - 1 implies !(sort_time(x, key) < sort_time(#[trigger] rest[j], key)) by {
            assert(rest[j] == sorted[j + 1]);
        }
        if i - 1 < rest.len() {
            assert(rest[i - 1] == sorted[i]);
        }
        lemma_insert_at_time(rest, x, key, i - 1);
        assert(!(sort_time(x, key) < sort_time(sorted[0], key)));
        assert(sorted.insert(i, x) =~= seq![sorted[0]] + rest.insert(i - 1, x));
    }
}

fn insert_thread_by_time(sorted: &mut Vec<ThreadMetadata>, x: ThreadMetadata, key: SortKey)
    ensures
        meta_views(final(sorted)@) == insert_by_time(meta_views(old(sorted)@), x@, key),
{
    let ghost before = meta_views(sorted@);
    let tx = time_of(&x, key);
    let mut i: usize = 0;
    while i < sorted.len() && !(tx < time_of(&sorted[i], key))
        invariant
            i <= sorted@.len(),
            before == meta_views(sorted@),
            tx == sort_time(x@, key),
            forall|j: int| 0 <= j < i ==> !(sort_time(x@, key) < sort_time(#[trigger] before[j], key)),
        decreases sorted.len() - i,
    {
        i = i + 1;
    }
    proof {
        lemma_insert_at_time(before, x@, key, i as int);
    }
    sorted.insert(i, x);
    assert(meta_views(sorted@) =~= before.insert(i as int, x@));
}

impl StateRuntime {
    /// One page of the threads that a listing with `filters` shows (see
    /// `listed` and `page_is`): filtered, sorted by the sort time (threads
    /// with the same time in storage order, or the reverse for `Desc`), past
    /// the anchor, and cut to `page_size`.
    pub fn list_threads(&self, page_size: usize, filters: ThreadFilterOptions) -> (r: ThreadsPage)
        requires
            self.wf(),
        ensures
            page_is(r, listed(self@.thread_rows, filters), page_size as int, filters.sort_key),
    {
        let ghost rows = self@.thread_rows;
        let key = filters.sort_key;
        let n = self.threads.len();
        // Filter and sort.
        let mut sorted: Vec<ThreadMetadata> = Vec::new();
        let mut i: usize = 0;
        while i < n
            invariant
                n == rows.len(),
                rows == self@.thread_rows,
                i <= n,
                key == filters.sort_key,
                meta_views(sorted@) == sort_by_time(filter_threads(rows.subrange(0, i as int), filters), key),
            decreases n - i,
        {
            let t = self.threads.value_of(i);
            let ghost pre = rows.subrange(0, i as int);
            assert(rows.subrange(0, i + 1).drop_last() =~= pre);
            assert(rows.subrange(0, i + 1).last() == t@);
            if thread_passes(t, &filters) {
                insert_thread_by_time(&mut sorted, t.duplicate(), key);
                assert(filter_threads(rows.subrange(0, i + 1), filters) == filter_threads(pre, filters).push(t@));
                assert(filter_threads(pre, filters).push(t@).drop_last() =~= filter_threads(pre, filters));
            }
            i = i + 1;
        }
        assert(rows.subrange(0, n as int) =~= rows);
        // Turn around for `Desc`.
        let ghost asc = meta_views(sorted@);
        let mut ordered: Vec<ThreadMetadata> = Vec::new();
        if filters.sort_direction == SortDirection::Desc {
            let m = sorted.len();
            while sorted.len() > 0
                invariant
                    m == asc.len(),
                    sorted@.len() <= m,
                    meta_views(sorted@) == asc.subrange(0, sorted@.len() as int),
                    meta_views(ordered@) == asc.subrange(sorted@.len() as int, m as int).reverse(),
                decreases sorted.len(),
            {
                let ghost k = sorted@.len();
                let ghost sv = sorted@;
                let t = sorted.pop().unwrap();
                assert(meta_views(sv)[k - 1] == sv[k - 1]@);
                assert(asc.subrange(0, k as int)[k - 1] == asc[k - 1]);
                assert(t@ == asc[k - 1]);
                let ghost ov = meta_views(ordered@);
                ordered.push(t);
                assert(meta_views(sorted@) =~= asc.subrange(0, k - 1));
                proof {
                    let hi = asc.subrange(k as int, m as int);
                    let lo = asc.subrange(k - 1, m as int);
                    assert(meta_views(ordered@) =~= ov.push(asc[k - 1]));
                    assert forall|q: int| 0 <= q < lo.len() implies #[trigger] lo.reverse()[q]
                        == ov.push(asc[k - 1])[q] by {
                        if q < hi.len() {
                            assert(ov[q] == hi.reverse()[q]);
                        }
                    }
                    assert(lo.reverse() =~= ov.push(asc[k - 1]));
                }
            }
            assert(asc.subrange(0, m as int) =~= asc);
        } else {
            ordered = sorted;
        }
        let ghost ord = meta_views(ordered@);
        assert(ord == in_order(filter_threads(rows, filters), key, filters.sort_direction));
        // Keep what is past the anchor.
        let mut kept: Vec<ThreadMetadata> = Vec::new();
        match filters.anchor {
            Some(a) => {
                let m = ordered.len();
                let mut j: usize = 0;
                while j < m
                    invariant
                        m == ord.len(),
                        ord == meta_views(ordered@),
                        j <= m,
                        meta_views(kept@) == keep_beyond(ord.subrange(0, j as int), a.ts, key, filters.sort_direction),
                    decreases m - j,
                {
                    let t = &ordered[j];
                    let ghost pre = ord.subrange(0, j as int);
                    assert(ord.subrange(0, j + 1).drop_last() =~= pre);
                    assert(ord.subrange(0, j + 1).last() == t@);
                    let tt = time_of(t, key);
                    let keep = if filters.sort_direction == SortDirection::Asc {
                        tt > a.ts
                    } else {
                        tt < a.ts
                    };
                    if keep {
                        kept.push(t.duplicate());
                        assert(meta_views(kept@) =~= keep_beyond(pre, a.ts, key, filters.sort_direction).push(t@));
                    }
                    j = j + 1;
                }
                assert(ord.subrange(0, m as int) =~= ord);
            },
            None => {
                kept = ordered;
            },
        }
        let ghost all = meta_views(kept@);
        assert(all == listed(rows, filters));
        // Cut to the page.
        let num_scanned_rows = kept.len();
        if kept.len() > page_size {
            kept.truncate(page_size);
            assert(meta_views(kept@) =~= all.take(page_size as int));
            let next_anchor = if page_size > 0 {
                Some(Anchor { ts: time_of(&kept[page_size - 1], key) })
            } else {
                None
            };
            ThreadsPage { items: kept, next_anchor, num_scanned_rows }
        } else {
            ThreadsPage { items: kept, next_anchor: None, num_scanned_rows }
        }
    }
}

// ---------------------------------------------------------------------------
// Reading rollouts into the store
// ---------------------------------------------------------------------------

/// The record after reading `items` in order.
pub open spec fn after_items(m: ThreadMetadataView, items: Seq<RolloutItem>, default_provider: Seq<char>) -> ThreadMetadataView
    decreases items.len(),
{
    if items.len() == 0 {
        m
    } else {
        after_item(after_items(m, items.drop_last(), default_provider), items.last(), default_provider)
    }
}

/// The record that reading `items` for the thread of `b` stores: the stored
/// record (or a new one built from `b`) with `b`'s rollout path, the items
/// read into it, the stored git facts kept, and the update time overridden
/// where an override is given.
pub open spec fn applied_record(
    s: StateView,
    b: ThreadMetadataBuilder,
    items: Seq<RolloutItem>,
    updated_at_override: Option<i64>,
) -> ThreadMetadataView {
    let existing = s.threads.contains_key(b.id@);
    let start = if existing {
        s.threads[b.id@]
    } else {
        built(b, s.default_provider)
    };
    let m = after_items(ThreadMetadataView { rollout_path: b.rollout_path@, ..start }, items, s.default_provider);
    let m = if existing {
        let e = s.threads[b.id@];
        ThreadMetadataView {
            git_sha: prefer_some(m.git_sha, e.git_sha),
            git_branch: prefer_some(m.git_branch, e.git_branch),
            git_origin_url: prefer_some(m.git_origin_url, e.git_origin_url),
            ..m
        }
    } else {
        m
    };
    match updated_at_override {
        Some(u) => ThreadMetadataView { updated_at: u, ..m },
        None => m,
    }
}

/// The store with `rec` stored under its id.
pub open spec fn with_upserted(s: StateView, rec: ThreadMetadataView) -> StateView {
    StateView {
        threads: s.threads.insert(rec.id, rec),
        thread_rows: if s.threads.contains_key(rec.id) {
            s.thread_rows.update(thread_index(s.thread_rows, rec.id), rec)
        } else {
            s.thread_rows.push(rec)
        },
        ..s
    }
}

proof fn lemma_items_keep_id(m: ThreadMetadataView, items: Seq<RolloutItem>, p: Seq<char>)
    ensures
        after_items(m, items, p).id == m.id,
    decreases items.len(),
{
    if items.len() > 0 {
        lemma_items_keep_id(m, items.drop_last(), p);
    }
}

impl StateRuntime {
    /// Reads `items` of the rollout of the thread of `builder` into its
    /// record (see `applied_record`) and records its memory mode where one is
    /// given. Nothing happens for no items.
    pub fn apply_rollout_items(
        &mut self,
        builder: &ThreadMetadataBuilder,
        items: &[RolloutItem],
        new_thread_memory_mode: Option<&str>,
        updated_at_override: Option<i64>,
    )
        requires
            old(self).wf(),
        ensures
            final(self).wf(),
            items@.len() == 0 ==> final(self)@ == old(self)@,
            items@.len() > 0 ==> ({
                let up = with_upserted(
                    old(self)@,
                    applied_record(old(self)@, *builder, items@, updated_at_override),
                );
                final(self)@ == match new_thread_memory_mode {
                    Some(mode) => StateView { memory_modes: up.memory_modes.insert(builder.id@, mode@), ..up },
                    None => up,
                }
            }),
    {
        if items.len() == 0 {
            return;
        }
        let ghost s0 = self@;
        let existing = self.get_thread(builder.id.as_str());
        let mut metadata = match &existing {
            Some(e) => e.duplicate(),
            None => builder.build(self.default_provider.as_str()),
        };
        metadata.rollout_path = clone_string(&builder.rollout_path);
        let ghost start = metadata@;
        let n = items.len();
        let mut i: usize = 0;
        while i < n
            invariant
                n == items@.len(),
                i <= n,
                metadata@ == after_items(start, items@.subrange(0, i as int), s0.default_provider),
                self@ == s0,
            decreases n - i,
        {
            assert(items@.subrange(0, i + 1).drop_last() =~= items@.subrange(0, i as int));
            apply_rollout_item(&mut metadata, &items[i], self.default_provider.as_str());
            i = i + 1;
        }
        assert(items@.subrange(0, n as int) =~= items@);
        if let Some(e) = &existing {
            metadata.prefer_existing_git_info(e);
        }
        if let Some(u) = updated_at_override {
            metadata.updated_at = u;
        }
        proof {
            lemma_items_keep_id(start, items@, s0.default_provider);
        }
        assert(metadata@ == applied_record(s0, *builder, items@, updated_at_override));
        self.upsert_thread(&metadata);
        if let Some(mode) = new_thread_memory_mode {
            let _ = self.set_thread_memory_mode(builder.id.as_str(), mode);
        }
    }

    /// The ids of the first `limit` threads that a listing shows newest
    /// first (see `list_threads`).
    pub fn list_thread_ids(
        &self,
        limit: usize,
        anchor: Option<&Anchor>,
        sort_key: SortKey,
        allowed_sources: &[String],
        model_providers: Option<&[String]>,
        archived_only: bool,
    ) -> (r: Vec<String>)
        requires
            self.wf(),
        ensures
            ({
                let all = listed(
                    self@.thread_rows,
                    ThreadFilterOptions {
                        archived_only,
                        allowed_sources,
                        model_providers,
                        cwd_filters: None,
                        anchor,
                        sort_key,
                        sort_direction: SortDirection::Desc,
                        search_term: None,
                    },
                );
                let shown = if all.len() > limit {
                    all.take(limit as int)
                } else {
                    all
                };
                string_views(r@) == shown.map_values(|t: ThreadMetadataView| t.id)
            }),
    {
        let page = self.list_threads(
            limit,
            ThreadFilterOptions {
                archived_only,
                allowed_sources,
                model_providers,
                cwd_filters: None,
                anchor,
                sort_key,
                sort_direction: SortDirection::Desc,
                search_term: None,
            },
        );
        let ghost shown = meta_views(page.items@);
        let mut ids: Vec<String> = Vec::new();
        let mut i: usize = 0;
        while i < page.items.len()
            invariant
                i <= page.items@.len(),
                shown == meta_views(page.items@),
                string_views(ids@) == shown.subrange(0, i as int).map_values(|t: ThreadMetadataView| t.id),
            decreases page.items.len() - i,
        {
            assert(shown[i as int] == page.items@[i as int]@);
            let ghost before = string_views(ids@);
            let id = clone_string(&page.items[i].id);
            ids.push(id);
            assert(string_views(ids@) =~= before.push(shown[i as int].id));
            assert(shown.subrange(0, i + 1).map_values(|t: ThreadMetadataView| t.id) =~= shown.subrange(
                0,
                i as int,
            ).map_values(|t: ThreadMetadataView| t.id).push(shown[i as int].id));
            assert(string_views(ids@) =~= shown.subrange(0, i + 1).map_values(|t: ThreadMetadataView| t.id));
            i = i + 1;
        }
        assert(shown.subrange(0, page.items@.len() as int) =~= shown);
        ids
    }

    // -----------------------------------------------------------------------
    // Logs: the browser build keeps none
    // -----------------------------------------------------------------------

    pub fn insert_log(&self, entry: &LogEntry) {
    }

    pub fn insert_logs(&self, entries: &[LogEntry]) {
    }

    pub fn query_logs(&self, query: &LogQuery) -> (r: Vec<LogRow>)
        ensures
            r@.len() == 0,
    {
        Vec::new()
    }

    pub fn query_feedback_logs_for_threads(&self, thread_ids: &[String]) -> (r: Vec<u8>)
        ensures
            r@.len() == 0,
    {
        Vec::new()
    }

    pub fn query_feedback_logs(&self, thread_id: &str) -> (r: Vec<u8>)
        ensures
            r@.len() == 0,
    {
        Vec::new()
    }

    pub fn max_log_id(&self, query: &LogQuery) -> (r: i64)
        ensures
            r == 0,
    {
        0
    }

    // -----------------------------------------------------------------------
    // Agent jobs: the browser build leaves them to a host
    // -----------------------------------------------------------------------

    pub fn is_agent_job_cancelled(&self, job_id: &str) -> (r: bool)
        ensures
            !r,
    {
        false
    }

    pub fn get_agent_job_progress(&self, job_id: &str) -> (r: AgentJobProgress)
        ensures
            r.total_items == 0 && r.pending_items == 0 && r.running_items == 0 && r.completed_items == 0
                && r.failed_items == 0,
    {
        AgentJobProgress { total_items: 0, pending_items: 0, running_items: 0, completed_items: 0, failed_items: 0 }
    }

    pub fn mark_agent_job_running(&self, job_id: &str) -> (r: Result<(), String>)
        ensures
            r matches Err(m) && m@ == unsupported_state_message("mark_agent_job_running"@),
    {
        Err(unsupported_state("mark_agent_job_running"))
    }

    pub fn mark_agent_job_completed(&self, job_id: &str) -> (r: Result<(), String>)
        ensures
            r matches Err(m) && m@ == unsupported_state_message("mark_agent_job_completed"@),
    {
        Err(unsupported_state("mark_agent_job_completed"))
    }

    pub fn mark_agent_job_failed(&self, job_id: &str, error_message: &str) -> (r: Result<(), String>)
        ensures
            r matches Err(m) && m@ == unsupported_state_message("mark_agent_job_failed"@),
    {
        Err(unsupported_state("mark_agent_job_failed"))
    }

    pub fn mark_agent_job_cancelled(&self, job_id: &str, reason: &str) -> (r: Result<bool, String>)
        ensures
            r matches Err(m) && m@ == unsupported_state_message("mark_agent_job_cancelled"@),
    {
        Err(unsupported_state("mark_agent_job_cancelled"))
    }

    pub fn mark_agent_job_item_running(&self, job_id: &str, item_id: &str) -> (r: Result<bool, String>)
        ensures
            r matches Err(m) && m@ == unsupported_state_message("mark_agent_job_item_running"@),
    {
        Err(unsupported_state("mark_agent_job_item_running"))
    }

    pub fn mark_agent_job_item_running_with_thread(
        &self,
        job_id: &str,
        item_id: &str,
        thread_id: &str,
    ) -> (r: Result<bool, String>)
        ensures
            r matches Err(m) && m@ == unsupported_state_message("mark_agent_job_item_running_with_thread"@),
    {
        Err(unsupported_state("mark_agent_job_item_running_with_thread"))
    }

    pub fn mark_agent_job_item_pending(
        &self,
        job_id: &str,
        item_id: &str,
        error_message: Option<&str>,
    ) -> (r: Result<bool, String>)
        ensures
            r matches Err(m) && m@ == unsupported_state_message("mark_agent_job_item_pending"@),
    {
        Err(unsupported_state("mark_agent_job_item_pending"))
    }

    pub fn set_agent_job_item_thread(&self, job_id: &str, item_id: &str, thread_id: &str) -> (r: Result<bool, String>)
        ensures
            r matches Err(m) && m@ == unsupported_state_message("set_agent_job_item_thread"@),
    {
        Err(unsupported_state("set_agent_job_item_thread"))
    }

    pub fn mark_agent_job_item_completed(&self, job_id: &str, item_id: &str) -> (r: Result<bool, String>)
        ensures
            r matches Err(m) && m@ == unsupported_state_message("mark_agent_job_item_completed"@),
    {
        Err(unsupported_state("mark_agent_job_item_completed"))
    }

    pub fn mark_agent_job_item_failed(
        &self,
        job_id: &str,
        item_id: &str,
        error_message: &str,
    ) -> (r: Result<bool, String>)
        ensures
            r matches Err(m) && m@ == unsupported_state_message("mark_agent_job_item_failed"@),
    {
        Err(unsupported_state("mark_agent_job_item_failed"))
    }
}

// ---------------------------------------------------------------------------
// Laws of the store
// ---------------------------------------------------------------------------

/// A stored record is read back as it was stored, and storing it leaves every
/// other thread as it was.
pub proof fn law_thread_read_after_upsert(s: StateView, rec: ThreadMetadataView, other: Seq<char>)
    requires
        other != rec.id,
    ensures
        with_upserted(s, rec).threads.contains_key(rec.id),
        with_upserted(s, rec).threads[rec.id] == rec,
        with_upserted(s, rec).threads.contains_key(other) == s.threads.contains_key(other),
        s.threads.contains_key(other) ==> with_upserted(s, rec).threads[other] == s.threads[other],
{
}

/// A thread's preview is set once: after it was set, setting it again is
/// refused.
pub proof fn law_preview_set_once(s: StateView, id: Seq<char>, p: Seq<char>, q: Seq<char>)
    requires
        s.threads.contains_key(id),
    ensures
        ({
            let s1 = with_thread(s, id, ThreadMetadataView { preview: Some(p), ..s.threads[id] });
            !(trim_seq(q).len() > 0 && s1.threads.contains_key(id) && s1.threads[id].preview is None)
        }),
{
}

/// A deleted thread is gone, and so is its goal; no other thread changes.
pub proof fn law_delete_forgets(s: StateView, id: Seq<char>, other: Seq<char>)
    requires
        other != id,
    ensures
        !without_thread(s, id).threads.contains_key(id),
        !without_thread(s, id).goals.contains_key(id),
        without_thread(s, id).threads.contains_key(other) == s.threads.contains_key(other),
        s.threads.contains_key(other) ==> without_thread(s, id).threads[other] == s.threads[other],
{
}

pub open spec fn ascending(s: Seq<ThreadMetadataView>, key: SortKey) -> bool {
    forall|i: int, j: int| 0 <= i < j < s.len() ==> sort_time(#[trigger] s[i], key) <= sort_time(#[trigger] s[j], key)
}

pub open spec fn descending(s: Seq<ThreadMetadataView>, key: SortKey) -> bool {
    forall|i: int, j: int| 0 <= i < j < s.len() ==> sort_time(#[trigger] s[i], key) >= sort_time(#[trigger] s[j], key)
}

proof fn lemma_insert_by_time(sorted: Seq<ThreadMetadataView>, x: ThreadMetadataView, key: SortKey)
    requires
        ascending(sorted, key),
    ensures
        ascending(insert_by_time(sorted, x, key), key),
        insert_by_time(sorted, x, key).len() == sorted.len() + 1,
        forall|e: ThreadMetadataView| #[trigger] insert_by_time(sorted, x, key).contains(e) <==> (e == x
            || sorted.contains(e)),
    decreases sorted.len(),
{
    let r = insert_by_time(sorted, x, key);
    if sorted.len() == 0 {
        assert forall|e: ThreadMetadataView| r.contains(e) <==> (e == x || sorted.contains(e)) by {
            if r.contains(e) {
                assert(r[0] == x);
            }
            if e == x {
                assert(r[0] == e);
            }
        }
    } else if sort_time(x, key) < sort_time(sorted[0], key) {
        assert forall|i: int, j: int| 0 <= i < j < r.len() implies sort_time(#[trigger] r[i], key)
            <= sort_time(#[trigger] r[j], key) by {
            if i == 0 {
                assert(r[j] == sorted[j - 1]);
                if j - 1 > 0 {
                    assert(sort_time(sorted[0], key) <= sort_time(sorted[j - 1], key));
                }
            } else {
                assert(r[i] == sorted[i - 1]);
                assert(r[j] == sorted[j - 1]);
            }
        }
        assert forall|e: ThreadMetadataView| r.contains(e) <==> (e == x || sorted.contains(e)) by {
            if r.contains(e) {
                let k = choose|k: int| 0 <= k < r.len() && r[k] == e;
                if k > 0 {
                    assert(sorted[k - 1] == e);
                }
            }
            if sorted.contains(e) {
                let k = choose|k: int| 0 <= k < sorted.len() && sorted[k] == e;
                assert(r[k + 1] == e);
            }
            if e == x {
                assert(r[0] == e);
            }
        }
    } else {
        let rest = sorted.drop_first();
        assert forall|i: int, j: int| 0 <= i < j < rest.len() implies sort_time(#[trigger] rest[i], key)
            <= sort_time(#[trigger] rest[j], key) by {
            assert(rest[i] == sorted[i + 1]);
            assert(rest[j] == sorted[j + 1]);
        }
        lemma_insert_by_time(rest, x, key);
        let t = insert_by_time(rest, x, key);
        assert(r == seq![sorted[0]] + t);
        assert forall|i: int, j: int| 0 <= i < j < r.len() implies sort_time(#[trigger] r[i], key)
            <= sort_time(#[trigger] r[j], key) by {
            if i == 0 {
                assert(r[j] == t[j - 1]);
                assert(t.contains(t[j - 1]));
                if t[j - 1] != x {
                    assert(rest.contains(t[j - 1]));
                    let k = choose|k: int| 0 <= k < rest.len() && rest[k] == t[j - 1];
                    assert(sorted[k + 1] == t[j - 1]);
                }
            } else {
                assert(r[i] == t[i - 1]);
                assert(r[j] == t[j - 1]);
            }
        }
        assert forall|e: ThreadMetadataView| r.contains(e) <==> (e == x || sorted.contains(e)) by {
            if r.contains(e) {
                let k = choose|k: int| 0 <= k < r.len() && r[k] == e;
                if k > 0 {
                    assert(t[k - 1] == e);
                    assert(t.contains(e));
                    if e != x {
                        assert(rest.contains(e));
                        let m = choose|m: int| 0 <= m < rest.len() && rest[m] == e;
                        assert(sorted[m + 1] == e);
                    }
                } else {
                    assert(sorted[0] == e);
                }
            }
            if sorted.contains(e) {
                let k = choose|k: int| 0 <= k < sorted.len() && sorted[k] == e;
                if k > 0 {
                    assert(rest[k - 1] == e);
                    assert(rest.contains(e));
                    assert(t.contains(e));
                    let m = choose|m: int| 0 <= m < t.len() && t[m] == e;
                    assert(r[m + 1] == e);
                } else {
                    assert(r[0] == e);
                }
            }
            if e == x {
                assert(t.contains(x));
                let m = choose|m: int| 0 <= m < t.len() && t[m] == x;
                assert(r[m + 1] == x);
            }
        }
    }
}

proof fn lemma_sort_by_time(s: Seq<ThreadMetadataView>, key: SortKey)
    ensures
        ascending(sort_by_time(s, key), key),
        sort_by_time(s, key).len() == s.len(),
        forall|e: ThreadMetadataView| #[trigger] sort_by_time(s, key).contains(e) <==> s.contains(e),
    decreases s.len(),
{
    if s.len() > 0 {
        lemma_sort_by_time(s.drop_last(), key);
        lemma_insert_by_time(sort_by_time(s.drop_last(), key), s.last(), key);
        assert forall|e: ThreadMetadataView| #[trigger] sort_by_time(s, key).contains(e) <==> s.contains(e) by {
            if s.contains(e) {
                let k = choose|k: int| 0 <= k < s.len() && s[k] == e;
                if k < s.len() - 1 {
                    assert(s.drop_last()[k] == e);
                }
            }
            if s.drop_last().contains(e) {
                let k = choose|k: int| 0 <= k < s.drop_last().len() && s.drop_last()[k] == e;
                assert(s[k] == e);
            }
        }
    }
}

proof fn lemma_filter_threads(rows: Seq<ThreadMetadataView>, f: ThreadFilterOptions)
    ensures
        forall|e: ThreadMetadataView| #[trigger] filter_threads(rows, f).contains(e) <==> (rows.contains(e)
            && passes(e, f)),
    decreases rows.len(),
{
    if rows.len() > 0 {
        let prev = rows.drop_last();
        lemma_filter_threads(prev, f);
        let r = filter_threads(rows, f);
        let pr = filter_threads(prev, f);
        assert forall|e: ThreadMetadataView| #[trigger] r.contains(e) <==> (rows.contains(e) && passes(e, f)) by {
            if rows.contains(e) {
                let k = choose|k: int| 0 <= k < rows.len() && rows[k] == e;
                if k < rows.len() - 1 {
                    assert(prev[k] == e);
                }
            }
            if prev.contains(e) {
                let k = choose|k: int| 0 <= k < prev.len() && prev[k] == e;
                assert(rows[k] == e);
            }
            if passes(rows.last(), f) {
                assert(r == pr.push(rows.last()));
                if r.contains(e) {
                    let k = choose|k: int| 0 <= k < r.len() && r[k] == e;
                    if k < pr.len() {
                        assert(pr[k] == e);
                    }
                }
                if pr.contains(e) {
                    let k = choose|k: int| 0 <= k < pr.len() && pr[k] == e;
                    assert(r[k] == e);
                }
                assert(r[pr.len() as int] == rows.last());
            }
        }
    }
}

proof fn lemma_keep_beyond(s: Seq<ThreadMetadataView>, a: i64, key: SortKey, dir: SortDirection)
    ensures
        forall|e: ThreadMetadataView| #[trigger] keep_beyond(s, a, key, dir).contains(e) <==> (s.contains(e)
            && beyond(e, a, key, dir)),
        ascending(s, key) ==> ascending(keep_beyond(s, a, key, dir), key),
        descending(s, key) ==> descending(keep_beyond(s, a, key, dir), key),
    decreases s.len(),
{
    if s.len() > 0 {
        let prev = s.drop_last();
        lemma_keep_beyond(prev, a, key, dir);
        let r = keep_beyond(s, a, key, dir);
        let pr = keep_beyond(prev, a, key, dir);
        assert forall|e: ThreadMetadataView| #[trigger] r.contains(e) <==> (s.contains(e) && beyond(e, a, key, dir)) by {
            if s.contains(e) {
                let k = choose|k: int| 0 <= k < s.len() && s[k] == e;
                if k < s.len() - 1 {
                    assert(prev[k] == e);
                }
            }
            if prev.contains(e) {
                let k = choose|k: int| 0 <= k < prev.len() && prev[k] == e;
                assert(s[k] == e);
            }
            if beyond(s.last(), a, key, dir) {
                assert(r == pr.push(s.last()));
                if r.contains(e) {
                    let k = choose|k: int| 0 <= k < r.len() && r[k] == e;
                    if k < pr.len() {
                        assert(pr[k] == e);
                    }
                }
                if pr.contains(e) {
                    let k = choose|k: int| 0 <= k < pr.len() && pr[k] == e;
                    assert(r[k] == e);
                }
                assert(r[pr.len() as int] == s.last());
            }
        }
        if ascending(s, key) {
            assert forall|i: int, j: int| 0 <= i < j < prev.len() implies sort_time(#[trigger] prev[i], key)
                <= sort_time(#[trigger] prev[j], key) by {
                assert(prev[i] == s[i]);
                assert(prev[j] == s[j]);
            }
            if beyond(s.last(), a, key, dir) {
                assert forall|i: int, j: int| 0 <= i < j < r.len() implies sort_time(#[trigger] r[i], key)
                    <= sort_time(#[trigger] r[j], key) by {
                    if j == pr.len() {
                        assert(pr.contains(pr[i]));
                        let k = choose|k: int| 0 <= k < prev.len() && prev[k] == pr[i];
                        assert(s[k] == pr[i]);
                        assert(r[j] == s[s.len() - 1]);
                    } else {
                        assert(r[i] == pr[i]);
                        assert(r[j] == pr[j]);
                    }
                }
            }
        }
        if descending(s, key) {
            assert forall|i: int, j: int| 0 <= i < j < prev.len() implies sort_time(#[trigger] prev[i], key)
                >= sort_time(#[trigger] prev[j], key) by {
                assert(prev[i] == s[i]);
                assert(prev[j] == s[j]);
            }
            if beyond(s.last(), a, key, dir) {
                assert forall|i: int, j: int| 0 <= i < j < r.len() implies sort_time(#[trigger] r[i], key)
                    >= sort_time(#[trigger] r[j], key) by {
                    if j == pr.len() {
                        assert(pr.contains(pr[i]));
                        let k = choose|k: int| 0 <= k < prev.len() && prev[k] == pr[i];
                        assert(s[k] == pr[i]);
                        assert(r[j] == s[s.len() - 1]);
                    } else {
                        assert(r[i] == pr[i]);
                        assert(r[j] == pr[j]);
                    }
                }
            }
        }
    }
}

/// A search term narrows a listing to the threads whose title or preview
/// (empty when there is none) contains the term, ASCII case ignored: a
/// thread passes a filter with a search term exactly when it passes the same
/// filter without one and the term occurs in its title or in its preview.
pub proof fn law_search_matches_title_or_preview(t: ThreadMetadataView, f: ThreadFilterOptions)
    requires
        f.search_term is Some,
    ensures
        ({
            let term = lower_seq(f.search_term.unwrap()@);
            let preview = match t.preview {
                Some(p) => p,
                None => Seq::<char>::empty(),
            };
            passes(t, f) <==> (passes(t, ThreadFilterOptions { search_term: None, ..f }) && (
            contains_seq(lower_seq(t.title), term) || contains_seq(lower_seq(preview), term)))
        }),
{
}

/// A listing shows exactly the stored threads that pass its filters and lie
/// past its anchor, earliest first for `Asc` and latest first for `Desc` by
/// the sort time.
pub proof fn law_listing_order(rows: Seq<ThreadMetadataView>, f: ThreadFilterOptions)
    ensures
        f.sort_direction == SortDirection::Asc ==> ascending(listed(rows, f), f.sort_key),
        f.sort_direction == SortDirection::Desc ==> descending(listed(rows, f), f.sort_key),
        forall|e: ThreadMetadataView| #[trigger] listed(rows, f).contains(e) <==> {
            &&& rows.contains(e)
            &&& passes(e, f)
            &&& match f.anchor {
                Some(a) => beyond(e, a.ts, f.sort_key, f.sort_direction),
                None => true,
            }
        },
{
    let key = f.sort_key;
    let dir = f.sort_direction;
    let filtered = filter_threads(rows, f);
    lemma_filter_threads(rows, f);
    lemma_sort_by_time(filtered, key);
    let sorted = sort_by_time(filtered, key);
    let ordered = in_order(filtered, key, dir);
    if dir == SortDirection::Desc {
        assert forall|i: int, j: int| 0 <= i < j < ordered.len() implies sort_time(#[trigger] ordered[i], key)
            >= sort_time(#[trigger] ordered[j], key) by {
            let n = sorted.len() as int;
            assert(ordered[i] == sorted[n - 1 - i]);
            assert(ordered[j] == sorted[n - 1 - j]);
        }
        assert forall|e: ThreadMetadataView| #[trigger] ordered.contains(e) <==> sorted.contains(e) by {
            let n = sorted.len() as int;
            if ordered.contains(e) {
                let k = choose|k: int| 0 <= k < ordered.len() && ordered[k] == e;
                assert(sorted[n - 1 - k] == e);
            }
            if sorted.contains(e) {
                let k = choose|k: int| 0 <= k < sorted.len() && sorted[k] == e;
                assert(ordered[n - 1 - k] == e);
            }
        }
    }
    match f.anchor {
        Some(a) => {
            lemma_keep_beyond(ordered, a.ts, key, dir);
        },
        None => {},
    }
}

} // verus!
