use vstd::prelude::*;

use crate::browser_cli::clone_string;
use crate::browser_cli::opt_view;
use crate::rollout::clone_meta;
use crate::rollout::clone_records;
use crate::rollout::first_meta;
use crate::rollout::get_threads;
use crate::rollout::items_view;
use crate::rollout::listed_threads;
use crate::rollout::newest_first;
use crate::rollout::opt_vec_view;
use crate::rollout::page_of;
use crate::rollout::path_starts_with;
use crate::rollout::records_view;
use crate::rollout::thread_item;
use crate::rollout::thread_item_spec;
use crate::rollout::Cursor;
use crate::rollout::RolloutConfigView;
use crate::rollout::RolloutRecord;
use crate::rollout::SessionMetaView;
use crate::rollout::SessionMetaSummary;
use crate::rollout::ThreadItem;
use crate::rollout::ThreadSortKey;
use crate::rollout::ThreadsPage;
use crate::table::position;
use crate::table::Table;
use crate::state::join_path;
use crate::state::join_path_spec;
use crate::text::owned;
use crate::text::str_eq;
use crate::text::string_views;

verus! {

/// What `uuid::Uuid::parse_str` makes of `s`, written back as hyphenated
/// lower-case text; nothing where `s` is no UUID. It is a function of the
/// text alone.
pub uninterp spec fn uuid_text(s: Seq<char>) -> Option<Seq<char>>;

/// `uuid::Uuid::parse_str`, with the parsed id written back by its `Display`
/// (the form in which thread ids are stored).
#[verifier::external_body]
fn parse_thread_id(s: &str) -> (r: Option<String>)
    ensures
        opt_view(r) == uuid_text(s@),
{
    match uuid::Uuid::parse_str(s) {
        Ok(id) => Some(id.to_string()),
        Err(_) => None,
    }
}

/// The current UTC time as RFC 3339 text to the millisecond, with `Z`
/// (`chrono::Utc::now().to_rfc3339_opts(SecondsFormat::Millis, true)`);
/// nothing is claimed of the value, which is the clock's.
#[verifier::external_body]
fn rfc3339_millis_now() -> (r: String) {
    chrono::Utc::now().to_rfc3339_opts(chrono::SecondsFormat::Millis, true)
}

/// A rollout being recorded: where it is kept, and the thread's history mode.
#[derive(Debug, Clone, PartialEq, Eq)]
pub struct RolloutRecorder {
    pub rollout_path: String,
    pub history_mode: String,
}

/// The session header of a new thread: the given facts, with the working
/// directory and model provider of the configuration, and memories
/// `disabled` where the configuration generates none.
pub open spec fn header_for<V: RolloutConfigView>(
    config: &V,
    id: Seq<char>,
    parent_thread_id: Option<Seq<char>>,
    source: Seq<char>,
    agent_nickname: Option<Seq<char>>,
    agent_role: Option<Seq<char>>,
    cli_version: Seq<char>,
    history_mode: Seq<char>,
    timestamp: Seq<char>,
) -> SessionMetaView {
    SessionMetaView {
        id,
        cwd: config.cwd_spec(),
        source,
        parent_thread_id,
        agent_nickname,
        agent_role,
        model_provider: Some(config.model_provider_id_spec()),
        cli_version,
        timestamp,
        memory_mode: if config.generate_memories_spec() {
            None
        } else {
            Some("disabled"@)
        },
        history_mode,
    }
}

/// The rollouts of the browser build, kept in memory by path, and the names
/// given to threads.
pub struct RolloutStore {
    rollouts: Table<Vec<RolloutRecord>>,
    thread_names: Table<String>,
}

/// The store as plain values: the rollouts by path and in storage order, and
/// the thread names by thread id and in storage order.
pub struct RolloutStoreView {
    pub rollouts: Map<Seq<char>, Seq<RolloutRecord>>,
    pub entries: Seq<(String, Vec<RolloutRecord>)>,
    pub names: Map<Seq<char>, Seq<char>>,
    pub name_ids: Seq<Seq<char>>,
    pub name_values: Seq<Seq<char>>,
}

impl View for RolloutStore {
    type V = RolloutStoreView;

    closed spec fn view(&self) -> RolloutStoreView {
        RolloutStoreView {
            rollouts: self.rollouts@,
            entries: self.rollouts.pairs(),
            names: self.thread_names@,
            name_ids: self.thread_names.keys(),
            name_values: self.thread_names.values(),
        }
    }
}

/// The place of the rollout at `path` among `entries`.
pub open spec fn entry_index(entries: Seq<(String, Vec<RolloutRecord>)>, path: Seq<char>) -> int {
    choose|i: int| 0 <= i < entries.len() && entries[i].0@ == path
}

/// Whether `records` hold a session header of thread `id`.
pub open spec fn has_meta_of(records: Seq<RolloutRecord>, id: Seq<char>) -> bool {
    exists|i: int| 0 <= i < records.len() && (#[trigger] records[i] matches RolloutRecord::SessionMeta(m) && m.id@ == id)
}

/// The first rollout (in storage order) under `codex_home` that holds a
/// session header of thread `id`.
pub open spec fn first_path_of(
    entries: Seq<(String, Vec<RolloutRecord>)>,
    codex_home: Seq<char>,
    id: Seq<char>,
) -> Option<Seq<char>>
    decreases entries.len(),
{
    if entries.len() == 0 {
        None
    } else if path_starts_with(entries[0].0@, codex_home) && has_meta_of(entries[0].1@, id) {
        Some(entries[0].0@)
    } else {
        first_path_of(entries.drop_first(), codex_home, id)
    }
}

/// The names of the threads among `wanted`, in storage order.
pub open spec fn names_of(ids: Seq<Seq<char>>, names: Seq<Seq<char>>, wanted: Seq<Seq<char>>) -> Seq<(Seq<char>, Seq<char>)>
    decreases ids.len(),
{
    if ids.len() == 0 || names.len() == 0 {
        Seq::empty()
    } else {
        let rest = names_of(ids.drop_last(), names.drop_last(), wanted);
        if wanted.contains(ids.last()) {
            rest.push((ids.last(), names.last()))
        } else {
            rest
        }
    }
}

/// The first thread (in storage order) named `name`.
pub open spec fn first_named(ids: Seq<Seq<char>>, names: Seq<Seq<char>>, name: Seq<char>) -> Option<Seq<char>>
    decreases ids.len(),
{
    if ids.len() == 0 || names.len() == 0 {
        None
    } else if names[0] == name {
        Some(ids[0])
    } else {
        first_named(ids.drop_first(), names.drop_first(), name)
    }
}

pub open spec fn not_found_message(path: Seq<char>) -> Seq<char> {
    "browser rollout not found: "@ + path
}

pub open spec fn meta_not_found_message(path: Seq<char>) -> Seq<char> {
    "browser rollout metadata not found: "@ + path
}

pub open spec fn pair_views(v: Seq<(String, String)>) -> Seq<(Seq<char>, Seq<char>)> {
    v.map_values(|p: (String, String)| (p.0@, p.1@))
}

fn first_meta_of(records: &Vec<RolloutRecord>) -> (r: Option<&SessionMetaSummary>)
    ensures
        match r {
            Some(m) => first_meta(records@) == Some(*m),
            None => first_meta(records@) is None,
        },
{
    let mut i: usize = 0;
    while i < records.len()
        invariant
            i <= records@.len(),
            forall|j: int| 0 <= j < i ==> !(#[trigger] records@[j] is SessionMeta),
        decreases records.len() - i,
    {
        match &records[i] {
            RolloutRecord::SessionMeta(meta) => {
                assert(crate::rollout::is_first_meta(records@, i as int));
                let ghost k = choose|k: int| crate::rollout::is_first_meta(records@, k);
                assert(k == i) by {
                    if k > i {
                        assert(records@[i as int] is SessionMeta);
                    }
                }
                return Some(meta);
            },
            RolloutRecord::Other => {},
        }
        i = i + 1;
    }
    assert forall|k: int| !crate::rollout::is_first_meta(records@, k) by {
        if crate::rollout::is_first_meta(records@, k) {
            assert(records@[k] is SessionMeta);
        }
    }
    None
}

fn vec_contains(v: &Vec<String>, x: &str) -> (r: bool)
    ensures
        r == string_views(v@).contains(x@),
{
    let mut i: usize = 0;
    while i < v.len()
        invariant
            i <= v@.len(),
            forall|j: int| 0 <= j < i ==> #[trigger] v@[j]@ != x@,
        decreases v.len() - i,
    {
        if str_eq(v[i].as_str(), x) {
            assert(string_views(v@)[i as int] == x@);
            return true;
        }
        i = i + 1;
    }
    assert forall|j: int| 0 <= j < string_views(v@).len() implies string_views(v@)[j] != x@ by {
        assert(string_views(v@)[j] == v@[j]@);
    }
    false
}

/// Whether `r` is the rollout of the newest thread on the page of the threads
/// of `entries` that `get_threads` gives.
pub open spec fn latest_path_is(
    r: Option<String>,
    entries: Seq<(String, Vec<RolloutRecord>)>,
    codex_home: Seq<char>,
    page_size: int,
    cursor: Option<Cursor>,
    allowed_sources: Seq<String>,
    model_providers: Option<Seq<String>>,
    cwd_filters: Option<Seq<String>>,
) -> bool {
    exists|page: ThreadsPage|
        {
            &&& page_of(
                newest_first(listed_threads(entries, codex_home, allowed_sources, model_providers, cwd_filters)),
                page_size,
                cursor,
                page,
            )
            &&& opt_view(r) == if page.items@.len() > 0 {
                Some(items_view(page.items@)[0].path)
            } else {
                None
            }
        }
}

fn holds_meta_of(records: &Vec<RolloutRecord>, id: &str) -> (r: bool)
    ensures
        r == has_meta_of(records@, id@),
{
    let mut i: usize = 0;
    while i < records.len()
        invariant
            i <= records@.len(),
            forall|j: int|
                0 <= j < i ==> !(#[trigger] records@[j] matches RolloutRecord::SessionMeta(m) && m.id@ == id@),
        decreases records.len() - i,
    {
        if let RolloutRecord::SessionMeta(m) = &records[i] {
            if str_eq(m.id.as_str(), id) {
                return true;
            }
        }
        i = i + 1;
    }
    false
}

impl RolloutStore {
    pub closed spec fn wf(self) -> bool {
        &&& self.rollouts.wf()
        &&& self.thread_names.wf()
    }

    /// How the rollouts in storage order make up the rollouts by path.
    pub proof fn lemma_entries(self)
        requires
            self.wf(),
        ensures
            forall|i: int|
                0 <= i < self@.entries.len() ==> #[trigger] self@.rollouts.contains_key(self@.entries[i].0@)
                    && self@.rollouts[self@.entries[i].0@] == self@.entries[i].1@,
            forall|k: Seq<char>| #[trigger]
                self@.rollouts.contains_key(k) ==> {
                    let p = entry_index(self@.entries, k);
                    &&& 0 <= p < self@.entries.len()
                    &&& self@.entries[p].0@ == k
                },
            self@.name_ids.len() == self@.name_values.len(),
            forall|i: int|
                0 <= i < self@.name_ids.len() ==> #[trigger] self@.names.contains_key(self@.name_ids[i])
                    && self@.names[self@.name_ids[i]] == self@.name_values[i],
    {
        self.rollouts.lemma_rows();
        self.rollouts.lemma_pairs();
        self.thread_names.lemma_rows();
        assert forall|k: Seq<char>| #[trigger] self@.rollouts.contains_key(k) implies {
            let p = entry_index(self@.entries, k);
            &&& 0 <= p < self@.entries.len()
            &&& self@.entries[p].0@ == k
        } by {
            let q = position(self.rollouts.keys(), k);
            assert(self@.entries[q].0@ == k);
        }
    }

    pub fn new() -> (s: RolloutStore)
        ensures
            s.wf(),
            s@.rollouts == Map::<Seq<char>, Seq<RolloutRecord>>::empty(),
            s@.entries == Seq::<(String, Vec<RolloutRecord>)>::empty(),
            s@.names == Map::<Seq<char>, Seq<char>>::empty(),
            s@.name_ids == Seq::<Seq<char>>::empty(),
    {
        RolloutStore { rollouts: Table::new(), thread_names: Table::new() }
    }

    /// Adds `item` at the end of the rollout at `path` (a new rollout where
    /// none is kept there). The rollout moves to the end of the storage
    /// order.
    pub fn append_rollout_item_to_path(&mut self, path: &str, item: RolloutRecord)
        requires
            old(self).wf(),
        ensures
            final(self).wf(),
            final(self)@.rollouts == appended(old(self)@, path@, item),
            final(self)@.entries.len() > 0,
            final(self)@.entries.last().0@ == path@,
            final(self)@.entries.last().1@ == final(self)@.rollouts[path@],
            final(self)@.entries.drop_last() == if old(self)@.rollouts.contains_key(path@) {
                old(self)@.entries.remove(entry_index(old(self)@.entries, path@))
            } else {
                old(self)@.entries
            },
            final(self)@.names == old(self)@.names,
            final(self)@.name_ids == old(self)@.name_ids,
            final(self)@.name_values == old(self)@.name_values,
    {
        proof {
            self.lemma_entries();
            self.rollouts.lemma_pairs();
            self.rollouts.lemma_rows();
        }
        let ghost before = self@;
        let ghost keys = self.rollouts.keys();
        let ghost item_g = item;
        let mut records = match self.rollouts.remove(path) {
            Some(v) => v,
            None => Vec::new(),
        };
        proof {
            if before.rollouts.contains_key(path@) {
                let q = position(keys, path@);
                let p = entry_index(before.entries, path@);
                assert(before.entries[q].0@ == keys[q]);
                assert(before.entries[p].0@ == keys[p]);
                assert(p == q) by {
                    if p != q {
                        assert(keys[p] == keys[q]);
                        assert(crate::table::distinct_keys(keys));
                    }
                }
            }
        }
        records.push(item);
        let ghost mid = self@;
        let _ = self.rollouts.insert(owned(path), records);
        proof {
            self.rollouts.lemma_pairs();
            assert(self@.entries.drop_last() =~= mid.entries);
        }
    }

    /// The file name of a new rollout: its creation time and thread id.
    pub open spec fn rollout_file_name(timestamp: Seq<char>, id: Seq<char>) -> Seq<char> {
        "browser-rollout-"@ + timestamp + "-"@ + id + ".jsonl"@
    }

    /// Starts the rollout of a new thread: under the sessions directory of
    /// `codex_home`, named by the header's timestamp and thread id, holding
    /// the session header alone (in place of any rollout at that path).
    pub fn create_rollout(&mut self, codex_home: &str, meta: SessionMetaSummary) -> (path: String)
        requires
            old(self).wf(),
        ensures
            final(self).wf(),
            path@ == join_path_spec(
                join_path_spec(codex_home@, "sessions"@),
                Self::rollout_file_name(meta.timestamp@, meta.id@),
            ),
            final(self)@.rollouts == old(self)@.rollouts.insert(path@, seq![RolloutRecord::SessionMeta(meta)]),
            final(self)@.entries.len() > 0,
            final(self)@.entries.last().0@ == path@,
            final(self)@.entries.last().1@ == seq![RolloutRecord::SessionMeta(meta)],
            final(self)@.entries.drop_last() == if old(self)@.rollouts.contains_key(path@) {
                old(self)@.entries.remove(entry_index(old(self)@.entries, path@))
            } else {
                old(self)@.entries
            },
            final(self)@.names == old(self)@.names,
            final(self)@.name_ids == old(self)@.name_ids,
            final(self)@.name_values == old(self)@.name_values,
    {
        proof {
            self.lemma_entries();
            self.rollouts.lemma_pairs();
            self.rollouts.lemma_rows();
        }
        let sessions = join_path(codex_home, "sessions");
        let mut name = owned("browser-rollout-");
        name.append(meta.timestamp.as_str());
        name.append("-");
        name.append(meta.id.as_str());
        name.append(".jsonl");
        let path = join_path(sessions.as_str(), name.as_str());
        let ghost before = self@;
        let ghost keys = self.rollouts.keys();
        let _ = self.rollouts.remove(path.as_str());
        proof {
            if before.rollouts.contains_key(path@) {
                let q = position(keys, path@);
                let p = entry_index(before.entries, path@);
                assert(before.entries[q].0@ == keys[q]);
                assert(before.entries[p].0@ == keys[p]);
                assert(p == q) by {
                    if p != q {
                        assert(keys[p] == keys[q]);
                        assert(crate::table::distinct_keys(keys));
                    }
                }
            }
        }
        let ghost mid = self@;
        let mut records: Vec<RolloutRecord> = Vec::new();
        records.push(RolloutRecord::SessionMeta(meta));
        let _ = self.rollouts.insert(clone_string(&path), records);
        proof {
            self.rollouts.lemma_pairs();
            assert(self@.entries.drop_last() =~= mid.entries);
        }
        path
    }

    /// Takes up the rollout at `path` again: it must be kept and hold a
    /// session header, whose history mode the recorder keeps.
    pub fn resume_rollout(&self, path: &str) -> (r: Result<RolloutRecorder, String>)
        requires
            self.wf(),
        ensures
            match r {
                Ok(rec) => rec.rollout_path@ == path@ && self@.rollouts.contains_key(path@) && (first_meta(
                    self@.rollouts[path@],
                ) matches Some(m) && rec.history_mode@ == m.history_mode@),
                Err(m) => !(self@.rollouts.contains_key(path@) && first_meta(self@.rollouts[path@]) is Some)
                    && m@ == not_found_message(path@),
            },
    {
        let mode = match self.rollouts.get(path) {
            Some(records) => match first_meta_of(records) {
                Some(m) => Some(clone_string(&m.history_mode)),
                None => None,
            },
            None => None,
        };
        match mode {
            Some(history_mode) => Ok(RolloutRecorder { rollout_path: owned(path), history_mode }),
            None => {
                let mut m = owned("browser rollout not found: ");
                m.append(path);
                Err(m)
            },
        }
    }

    /// Starts the rollout of a new thread `id`, created at `timestamp`, from
    /// the configuration: the header records the configuration's working
    /// directory and model provider, and memories as `disabled` where the
    /// configuration generates none; the other facts are given.
    pub fn create_rollout_for<V: RolloutConfigView>(
        &mut self,
        config: &V,
        id: &str,
        parent_thread_id: Option<String>,
        source: &str,
        agent_nickname: Option<String>,
        agent_role: Option<String>,
        cli_version: &str,
        history_mode: &str,
        timestamp: &str,
    ) -> (r: RolloutRecorder)
        requires
            old(self).wf(),
        ensures
            final(self).wf(),
            r.rollout_path@ == join_path_spec(
                join_path_spec(config.codex_home_spec(), "sessions"@),
                Self::rollout_file_name(timestamp@, id@),
            ),
            r.history_mode@ == history_mode@,
            final(self)@.rollouts.contains_key(r.rollout_path@),
            final(self)@.rollouts[r.rollout_path@].len() == 1,
            final(self)@.rollouts[r.rollout_path@][0] matches RolloutRecord::SessionMeta(m) && m@
                == header_for(config, id@, opt_view(parent_thread_id), source@, opt_view(agent_nickname),
                opt_view(agent_role), cli_version@, history_mode@, timestamp@),
            final(self)@.rollouts.remove(r.rollout_path@) == old(self)@.rollouts.remove(r.rollout_path@),
            final(self)@.names == old(self)@.names,
    {
        let memory_mode = if config.generate_memories() {
            None
        } else {
            Some(owned("disabled"))
        };
        let meta = SessionMetaSummary {
            id: owned(id),
            cwd: owned(config.cwd()),
            source: owned(source),
            parent_thread_id,
            agent_nickname,
            agent_role,
            model_provider: Some(owned(config.model_provider_id())),
            cli_version: owned(cli_version),
            timestamp: owned(timestamp),
            memory_mode,
            history_mode: owned(history_mode),
        };
        let path = self.create_rollout(config.codex_home(), meta);
        RolloutRecorder { rollout_path: path, history_mode: owned(history_mode) }
    }

    /// Starts the rollout of a new thread `id` now (see `create_rollout_for`),
    /// timed by the clock.
    pub fn create_rollout_now<V: RolloutConfigView>(
        &mut self,
        config: &V,
        id: &str,
        parent_thread_id: Option<String>,
        source: &str,
        agent_nickname: Option<String>,
        agent_role: Option<String>,
        cli_version: &str,
        history_mode: &str,
    ) -> (r: RolloutRecorder)
        requires
            old(self).wf(),
        ensures
            final(self).wf(),
            exists|ts: Seq<char>|
                {
                    &&& r.rollout_path@ == join_path_spec(
                        join_path_spec(config.codex_home_spec(), "sessions"@),
                        Self::rollout_file_name(ts, id@),
                    )
                    &&& final(self)@.rollouts.contains_key(r.rollout_path@)
                    &&& final(self)@.rollouts[r.rollout_path@].len() == 1
                    &&& final(self)@.rollouts[r.rollout_path@][0] matches RolloutRecord::SessionMeta(m) && m@
                        == header_for(config, id@, opt_view(parent_thread_id), source@, opt_view(agent_nickname),
                        opt_view(agent_role), cli_version@, history_mode@, ts)
                    &&& final(self)@.rollouts.remove(r.rollout_path@) == old(self)@.rollouts.remove(
                        r.rollout_path@,
                    )
                },
            r.history_mode@ == history_mode@,
            final(self)@.names == old(self)@.names,
    {
        let timestamp = rfc3339_millis_now();
        self.create_rollout_for(
            config,
            id,
            parent_thread_id,
            source,
            agent_nickname,
            agent_role,
            cli_version,
            history_mode,
            timestamp.as_str(),
        )
    }

    /// The path of the rollout kept at `path`, if one is.
    pub fn existing_rollout_path(&self, path: &str) -> (r: Option<String>)
        requires
            self.wf(),
        ensures
            match r {
                Some(p) => self@.rollouts.contains_key(path@) && p@ == path@,
                None => !self@.rollouts.contains_key(path@),
            },
    {
        match self.rollouts.find(path) {
            Some(_) => Some(owned(path)),
            None => None,
        }
    }

    /// The lines of the rollout at `path`, the thread of its first session
    /// header, and no lines skipped.
    pub fn load_rollout_items(&self, path: &str) -> (r: Result<(Vec<RolloutRecord>, Option<String>, usize), String>)
        requires
            self.wf(),
        ensures
            match r {
                Ok((items, id, skipped)) => {
                    &&& self@.rollouts.contains_key(path@)
                    &&& records_view(items@) == records_view(self@.rollouts[path@])
                    &&& opt_view(id) == match first_meta(self@.rollouts[path@]) {
                        Some(m) => Some(m.id@),
                        None => None,
                    }
                    &&& skipped == 0
                },
                Err(m) => !self@.rollouts.contains_key(path@) && m@ == not_found_message(path@),
            },
    {
        match self.rollouts.get(path) {
            Some(records) => {
                let id = match first_meta_of(records) {
                    Some(m) => Some(clone_string(&m.id)),
                    None => None,
                };
                Ok((clone_records(records), id, 0))
            },
            None => {
                let mut m = owned("browser rollout not found: ");
                m.append(path);
                Err(m)
            },
        }
    }

    /// The first session header of the rollout at `path`.
    pub fn read_session_meta_line(&self, path: &str) -> (r: Result<SessionMetaSummary, String>)
        requires
            self.wf(),
        ensures
            match r {
                Ok(m) => self@.rollouts.contains_key(path@) && (first_meta(self@.rollouts[path@]) matches Some(
                    f,
                ) && m@ == f@),
                Err(msg) => !(self@.rollouts.contains_key(path@) && first_meta(self@.rollouts[path@]) is Some)
                    && msg@ == meta_not_found_message(path@),
            },
    {
        let found = match self.rollouts.get(path) {
            Some(records) => match first_meta_of(records) {
                Some(m) => Some(clone_meta(m)),
                None => None,
            },
            None => None,
        };
        match found {
            Some(m) => Ok(m),
            None => {
                let mut msg = owned("browser rollout metadata not found: ");
                msg.append(path);
                Err(msg)
            },
        }
    }

    /// The listing entry of the rollout at `path`.
    pub fn read_thread_item_from_rollout(&self, path: String) -> (r: Option<ThreadItem>)
        requires
            self.wf(),
        ensures
            match r {
                Some(item) => self@.rollouts.contains_key(path@) && thread_item_spec(
                    path@,
                    self@.rollouts[path@],
                ) == Some(item@),
                None => !self@.rollouts.contains_key(path@) || thread_item_spec(
                    path@,
                    self@.rollouts[path@],
                ) is None,
            },
    {
        let ghost p = path@;
        match self.rollouts.get(path.as_str()) {
            Some(records) => thread_item(path, records),
            None => None,
        }
    }

    /// The rollout under `codex_home` that holds thread `id_str`; nothing
    /// where `id_str` is no thread id.
    pub fn find_thread_path_by_id_str(&self, codex_home: &str, id_str: &str) -> (r: Option<String>)
        requires
            self.wf(),
        ensures
            opt_view(r) == match uuid_text(id_str@) {
                Some(id) => first_path_of(self@.entries, codex_home@, id),
                None => None,
            },
    {
        let id = match parse_thread_id(id_str) {
            Some(id) => id,
            None => return None,
        };
        let entries = self.rollouts.rows();
        let ghost es = entries@;
        assert(es == self@.entries);
        let n = entries.len();
        let mut i: usize = 0;
        assert(es.subrange(0, n as int) =~= es);
        while i < n
            invariant
                es == entries@,
                es == self@.entries,
                uuid_text(id_str@) == Some(id@),
                n == es.len(),
                i <= n,
                first_path_of(es, codex_home@, id@) == first_path_of(es.subrange(i as int, n as int), codex_home@, id@),
            decreases n - i,
        {
            let ghost rest = es.subrange(i as int, n as int);
            assert(rest[0] == es[i as int]);
            assert(rest.drop_first() =~= es.subrange(i + 1, n as int));
            let p = &entries[i].0;
            let records = &entries[i].1;
            assert(es[i as int].0@ == p@ && es[i as int].1@ == records@);
            if crate::rollout::path_is_under(p.as_str(), codex_home) && holds_meta_of(records, id.as_str()) {
                assert(first_path_of(rest, codex_home@, id@) == Some(p@));
                return Some(clone_string(p));
            }
            i = i + 1;
        }
        None
    }

    // -----------------------------------------------------------------------
    // Thread names
    // -----------------------------------------------------------------------

    /// Names thread `thread_id` `name`, in place of any name it had.
    pub fn append_thread_name(&mut self, codex_home: &str, thread_id: &str, name: &str)
        requires
            old(self).wf(),
        ensures
            final(self).wf(),
            final(self)@.names == old(self)@.names.insert(thread_id@, name@),
            final(self)@.rollouts == old(self)@.rollouts,
            final(self)@.entries == old(self)@.entries,
    {
        let _ = self.thread_names.insert(owned(thread_id), owned(name));
    }

    /// Forgets the name of thread `thread_id`.
    pub fn remove_thread_name_entries(&mut self, codex_home: &str, thread_id: &str)
        requires
            old(self).wf(),
        ensures
            final(self).wf(),
            final(self)@.names == old(self)@.names.remove(thread_id@),
            final(self)@.rollouts == old(self)@.rollouts,
            final(self)@.entries == old(self)@.entries,
    {
        let _ = self.thread_names.remove(thread_id);
    }

    pub fn find_thread_name_by_id(&self, codex_home: &str, thread_id: &str) -> (r: Option<String>)
        requires
            self.wf(),
        ensures
            match r {
                Some(n) => self@.names.contains_key(thread_id@) && n@ == self@.names[thread_id@],
                None => !self@.names.contains_key(thread_id@),
            },
    {
        match self.thread_names.get(thread_id) {
            Some(n) => Some(clone_string(n)),
            None => None,
        }
    }

    /// The names of the threads among `ids`, in storage order.
    pub fn find_thread_names_by_ids(&self, codex_home: &str, ids: &Vec<String>) -> (r: Vec<(String, String)>)
        requires
            self.wf(),
        ensures
            pair_views(r@) == names_of(self@.name_ids, self@.name_values, string_views(ids@)),
    {
        proof {
            self.lemma_entries();
        }
        let n = self.thread_names.len();
        let ghost ks = self@.name_ids;
        let ghost vs = self@.name_values;
        let mut out: Vec<(String, String)> = Vec::new();
        let mut i: usize = 0;
        while i < n
            invariant
                n == ks.len(),
                n == vs.len(),
                ks == self@.name_ids,
                vs == self@.name_values,
                self.wf(),
                i <= n,
                pair_views(out@) == names_of(ks.subrange(0, i as int), vs.subrange(0, i as int), string_views(ids@)),
            decreases n - i,
        {
            let k = self.thread_names.key_of(i);
            let v = self.thread_names.value_of(i);
            assert(ks.subrange(0, i + 1).drop_last() =~= ks.subrange(0, i as int));
            assert(vs.subrange(0, i + 1).drop_last() =~= vs.subrange(0, i as int));
            if vec_contains(ids, k) {
                let ghost before = pair_views(out@);
                out.push((owned(k), clone_string(v)));
                assert(pair_views(out@) =~= before.push((k@, v@)));
            }
            i = i + 1;
        }
        assert(ks.subrange(0, n as int) =~= ks);
        assert(vs.subrange(0, n as int) =~= vs);
        out
    }

    fn first_named_id(&self, name: &str) -> (r: Option<String>)
        requires
            self.wf(),
        ensures
            opt_view(r) == first_named(self@.name_ids, self@.name_values, name@),
    {
        proof {
            self.lemma_entries();
        }
        let n = self.thread_names.len();
        let ghost ks = self@.name_ids;
        let ghost vs = self@.name_values;
        let mut i: usize = 0;
        assert(ks.subrange(0, n as int) =~= ks);
        assert(vs.subrange(0, n as int) =~= vs);
        while i < n
            invariant
                n == ks.len(),
                n == vs.len(),
                ks == self@.name_ids,
                vs == self@.name_values,
                self.wf(),
                i <= n,
                first_named(ks, vs, name@) == first_named(
                    ks.subrange(i as int, n as int),
                    vs.subrange(i as int, n as int),
                    name@,
                ),
            decreases n - i,
        {
            let ghost rk = ks.subrange(i as int, n as int);
            let ghost rv = vs.subrange(i as int, n as int);
            assert(rk[0] == ks[i as int]);
            assert(rv[0] == vs[i as int]);
            assert(rk.drop_first() =~= ks.subrange(i + 1, n as int));
            assert(rv.drop_first() =~= vs.subrange(i + 1, n as int));
            if str_eq(self.thread_names.value_of(i).as_str(), name) {
                return Some(owned(self.thread_names.key_of(i)));
            }
            i = i + 1;
        }
        None
    }

    /// The rollout and session header of the first thread (in storage order)
    /// named `name`.
    pub fn find_thread_meta_by_name_str(&self, codex_home: &str, name: &str) -> (r: Result<
        Option<(String, SessionMetaSummary)>,
        String,
    >)
        requires
            self.wf(),
        ensures
            match first_named(self@.name_ids, self@.name_values, name@) {
                None => r == Ok::<Option<(String, SessionMetaSummary)>, String>(None),
                Some(id) => match match uuid_text(id) {
                    Some(t) => first_path_of(self@.entries, codex_home@, t),
                    None => None,
                } {
                    None => r == Ok::<Option<(String, SessionMetaSummary)>, String>(None),
                    Some(path) => match r {
                        Ok(Some((p, m))) => p@ == path && self@.rollouts.contains_key(path) && (first_meta(
                            self@.rollouts[path],
                        ) matches Some(f) && m@ == f@),
                        Ok(None) => false,
                        Err(msg) => msg@ == meta_not_found_message(path),
                    },
                },
            },
    {
        let found = self.first_named_id(name);
        let id = match found {
            Some(id) => id,
            None => return Ok(None),
        };
        let path = match self.find_thread_path_by_id_str(codex_home, id.as_str()) {
            Some(p) => p,
            None => return Ok(None),
        };
        match self.read_session_meta_line(path.as_str()) {
            Ok(meta) => Ok(Some((path, meta))),
            Err(e) => Err(e),
        }
    }

    // -----------------------------------------------------------------------
    // Listing
    // -----------------------------------------------------------------------

    /// One page of the threads of the stored rollouts under `codex_home`,
    /// newest first (see `rollout::get_threads`).
    pub fn get_threads(
        &self,
        codex_home: &str,
        page_size: usize,
        cursor: Option<&Cursor>,
        sort_key: ThreadSortKey,
        allowed_sources: &Vec<String>,
        model_providers: Option<&Vec<String>>,
        cwd_filters: Option<&Vec<String>>,
        default_provider: &str,
    ) -> (r: ThreadsPage)
        requires
            self.wf(),
        ensures
            page_of(
                newest_first(
                    listed_threads(
                        self@.entries,
                        codex_home@,
                        allowed_sources@,
                        opt_vec_view(model_providers),
                        opt_vec_view(cwd_filters),
                    ),
                ),
                page_size as int,
                match cursor {
                    Some(c) => Some(*c),
                    None => None,
                },
                r,
            ),
    {
        get_threads(
            self.rollouts.rows(),
            codex_home,
            page_size,
            cursor,
            sort_key,
            allowed_sources,
            model_providers,
            cwd_filters,
            default_provider,
        )
    }

    /// The rollout of the newest thread on the page that `get_threads` gives
    /// for a cwd filter of `filter_cwd` alone (or none).
    pub fn find_latest_thread_path(
        &self,
        codex_home: &str,
        page_size: usize,
        cursor: Option<&Cursor>,
        sort_key: ThreadSortKey,
        allowed_sources: &Vec<String>,
        model_providers: Option<&Vec<String>>,
        default_provider: &str,
        filter_cwd: Option<&str>,
    ) -> (r: Option<String>)
        requires
            self.wf(),
        ensures
            ({
                let c = match cursor {
                    Some(c) => Some(*c),
                    None => None,
                };
                match filter_cwd {
                    None => latest_path_is(
                        r,
                        self@.entries,
                        codex_home@,
                        page_size as int,
                        c,
                        allowed_sources@,
                        opt_vec_view(model_providers),
                        None,
                    ),
                    Some(cwd) => exists|cw: Seq<String>|
                        cw.len() == 1 && #[trigger] cw[0]@ == cwd@ && latest_path_is(
                            r,
                            self@.entries,
                            codex_home@,
                            page_size as int,
                            c,
                            allowed_sources@,
                            opt_vec_view(model_providers),
                            Some(cw),
                        ),
                }
            }),
    {
        let cwd_filters: Option<Vec<String>> = match filter_cwd {
            Some(c) => Some(vec![owned(c)]),
            None => None,
        };
        let page = self.get_threads(
            codex_home,
            page_size,
            cursor,
            sort_key,
            allowed_sources,
            model_providers,
            match &cwd_filters {
                Some(v) => Some(v),
                None => None,
            },
            default_provider,
        );
        let r = if page.items.len() > 0 {
            assert(items_view(page.items@)[0] == page.items@[0]@);
            Some(clone_string(&page.items[0].path))
        } else {
            None
        };
        proof {
            if let Some(v) = cwd_filters {
                assert(v@[0]@ == filter_cwd.unwrap()@);
            }
        }
        r
    }
}

/// The rollout at `path` after `item` was appended to it.
pub open spec fn appended(s: RolloutStoreView, path: Seq<char>, item: RolloutRecord) -> Map<Seq<char>, Seq<RolloutRecord>> {
    s.rollouts.insert(
        path,
        if s.rollouts.contains_key(path) {
            s.rollouts[path]
        } else {
            Seq::empty()
        }.push(item),
    )
}

/// Appending to a rollout keeps its earlier lines, puts the new line last,
/// and leaves every other rollout as it was.
pub proof fn law_append_keeps_earlier_lines(
    s: RolloutStoreView,
    path: Seq<char>,
    item: RolloutRecord,
    other: Seq<char>,
)
    requires
        other != path,
    ensures
        appended(s, path, item).contains_key(path),
        appended(s, path, item)[path].last() == item,
        appended(s, path, item)[path].drop_last() == if s.rollouts.contains_key(path) {
            s.rollouts[path]
        } else {
            Seq::<RolloutRecord>::empty()
        },
        appended(s, path, item).contains_key(other) == s.rollouts.contains_key(other),
        s.rollouts.contains_key(other) ==> appended(s, path, item)[other] == s.rollouts[other],
{
    let old_lines = if s.rollouts.contains_key(path) {
        s.rollouts[path]
    } else {
        Seq::<RolloutRecord>::empty()
    };
    assert(old_lines.push(item).drop_last() =~= old_lines);
}

/// A name given to a thread is read back until it is replaced or removed.
pub proof fn law_thread_name_read_after_write(names: Map<Seq<char>, Seq<char>>, id: Seq<char>, name: Seq<char>)
    ensures
        names.insert(id, name).contains_key(id),
        names.insert(id, name)[id] == name,
        !names.insert(id, name).remove(id).contains_key(id),
{
}

} // verus!
