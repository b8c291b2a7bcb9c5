use vstd::prelude::*;

use crate::browser_cli::clone_opt_string;
use crate::browser_cli::clone_string;
use crate::browser_cli::opt_view;
use crate::code_mode::lemma_digit_char;
use crate::text::all_digits;
use crate::text::contains_seq;
use crate::text::contains_str;
use crate::text::decimal_seq;
use crate::text::digit_char;
use crate::text::digits_value;
use crate::text::lower_seq;
use crate::text::owned;
use crate::text::parse_usize;
use crate::text::parse_usize_spec;
use crate::text::seq_lt;
use crate::text::str_lt;
use crate::text::to_ascii_lowercase;
use crate::text::u64_to_decimal;
use crate::text::unsigned_body;

verus! {

// ---------------------------------------------------------------------------
// Configuration
// ---------------------------------------------------------------------------

/// What the rollout store reads of the configuration; paths are text.
pub trait RolloutConfigView {
    spec fn codex_home_spec(&self) -> Seq<char>;

    spec fn sqlite_home_spec(&self) -> Seq<char>;

    spec fn cwd_spec(&self) -> Seq<char>;

    spec fn model_provider_id_spec(&self) -> Seq<char>;

    spec fn generate_memories_spec(&self) -> bool;

    fn codex_home(&self) -> (r: &str)
        ensures
            r@ == self.codex_home_spec(),
    ;

    fn sqlite_home(&self) -> (r: &str)
        ensures
            r@ == self.sqlite_home_spec(),
    ;

    fn cwd(&self) -> (r: &str)
        ensures
            r@ == self.cwd_spec(),
    ;

    fn model_provider_id(&self) -> (r: &str)
        ensures
            r@ == self.model_provider_id_spec(),
    ;

    fn generate_memories(&self) -> (r: bool)
        ensures
            r == self.generate_memories_spec(),
    ;
}

#[derive(Clone, Debug)]
pub struct RolloutConfig {
    pub codex_home: String,
    pub sqlite_home: String,
    pub cwd: String,
    pub model_provider_id: String,
    pub generate_memories: bool,
}

impl RolloutConfig {
    /// A configuration holding what `view` reports.
    pub fn from_view<V: RolloutConfigView>(view: &V) -> (r: Self)
        ensures
            r.codex_home@ == view.codex_home_spec(),
            r.sqlite_home@ == view.sqlite_home_spec(),
            r.cwd@ == view.cwd_spec(),
            r.model_provider_id@ == view.model_provider_id_spec(),
            r.generate_memories == view.generate_memories_spec(),
    {
        RolloutConfig {
            codex_home: owned(view.codex_home()),
            sqlite_home: owned(view.sqlite_home()),
            cwd: owned(view.cwd()),
            model_provider_id: owned(view.model_provider_id()),
            generate_memories: view.generate_memories(),
        }
    }
}

impl RolloutConfigView for RolloutConfig {
    open spec fn codex_home_spec(&self) -> Seq<char> {
        self.codex_home@
    }

    open spec fn sqlite_home_spec(&self) -> Seq<char> {
        self.sqlite_home@
    }

    open spec fn cwd_spec(&self) -> Seq<char> {
        self.cwd@
    }

    open spec fn model_provider_id_spec(&self) -> Seq<char> {
        self.model_provider_id@
    }

    open spec fn generate_memories_spec(&self) -> bool {
        self.generate_memories
    }

    fn codex_home(&self) -> (r: &str) {
        self.codex_home.as_str()
    }

    fn sqlite_home(&self) -> (r: &str) {
        self.sqlite_home.as_str()
    }

    fn cwd(&self) -> (r: &str) {
        self.cwd.as_str()
    }

    fn model_provider_id(&self) -> (r: &str) {
        self.model_provider_id.as_str()
    }

    fn generate_memories(&self) -> (r: bool) {
        self.generate_memories
    }
}

// ---------------------------------------------------------------------------
// Listing parameters
// ---------------------------------------------------------------------------

#[derive(Debug, Clone, Copy, PartialEq, Eq, Structural)]
pub enum ThreadSortKey {
    CreatedAt,
    UpdatedAt,
    RecencyAt,
}

#[derive(Debug, Clone, Copy, PartialEq, Eq, Structural)]
pub enum SortDirection {
    Asc,
    Desc,
}

#[derive(Debug, Clone, Copy, PartialEq, Eq, Structural)]
pub enum ThreadListLayout {
    NestedByDate,
    Flat,
}

/// A position in a thread listing: the number of threads already handed out.
#[derive(Debug, Clone, Copy, PartialEq, Eq, Structural)]
pub struct Cursor {
    offset: usize,
}

impl Cursor {
    pub closed spec fn offset_spec(self) -> usize {
        self.offset
    }

    pub fn offset(&self) -> (r: usize)
        ensures
            r == self.offset_spec(),
    {
        self.offset
    }

    /// The cursor's text form: its offset in decimal.
    pub fn to_token(&self) -> (r: String)
        ensures
            r@ == decimal_seq(self.offset_spec() as nat),
    {
        u64_to_decimal(self.offset as u64)
    }
}

/// The cursor a token names: a decimal offset (`str::parse::<usize>`).
pub fn parse_cursor(token: &str) -> (r: Option<Cursor>)
    ensures
        match r {
            Some(c) => parse_usize_spec(token@) == Some(c.offset_spec()),
            None => parse_usize_spec(token@) is None,
        },
{
    match parse_usize(token) {
        Some(offset) => Some(Cursor { offset }),
        None => None,
    }
}

proof fn lemma_decimal_digits(n: nat)
    ensures
        decimal_seq(n).len() >= 1,
        all_digits(decimal_seq(n)),
        digits_value(decimal_seq(n)) == n,
        decimal_seq(n)[0] != '+',
    decreases n,
{
    if n < 10 {
        lemma_digit_char(n as int);
        let s = decimal_seq(n);
        assert(s.drop_last() =~= Seq::<char>::empty());
        assert(digits_value(Seq::<char>::empty()) == 0);
        assert(s.last() == digit_char(n as int));
    } else {
        lemma_decimal_digits(n / 10);
        lemma_digit_char((n % 10) as int);
        let s = decimal_seq(n);
        assert(s.drop_last() =~= decimal_seq(n / 10));
        assert(s[0] == decimal_seq(n / 10)[0]);
        assert(s.last() == digit_char((n % 10) as int));
        assert(digits_value(s) == 10 * digits_value(decimal_seq(n / 10)) + (n % 10));
        assert(10 * (n / 10) + n % 10 == n);
    }
}

/// A cursor's token parses back to the same cursor.
pub proof fn law_cursor_token_round_trip(c: Cursor)
    ensures
        parse_usize_spec(decimal_seq(c.offset_spec() as nat)) == Some(c.offset_spec()),
{
    lemma_decimal_digits(c.offset_spec() as nat);
    assert(unsigned_body(decimal_seq(c.offset_spec() as nat)) == decimal_seq(
        c.offset_spec() as nat,
    ));
}

/// Reads the lines of a stored rollout; the browser store keeps none on
/// disk, so there is never a line to read.
pub struct RolloutLineReader;

impl RolloutLineReader {
    pub fn next_line(&mut self) -> (r: Option<String>)
        ensures
            r is None,
    {
        None
    }
}

/// The file form of a rollout path: the browser keeps rollouts uncompressed,
/// so it is the path itself.
pub fn plain_rollout_path(path: &str) -> (r: String)
    ensures
        r@ == path@,
{
    owned(path)
}

/// The browser store records each working directory as given.
pub fn normalize_cwd_for_state_db(cwd: &str) -> (r: String)
    ensures
        r@ == cwd@,
{
    owned(cwd)
}

/// The browser store has no compressed rollouts to maintain, so no worker is
/// started.
pub fn spawn_rollout_compression_worker(codex_home: String) {
}


// ---------------------------------------------------------------------------
// Stored rollouts and the threads they describe
// ---------------------------------------------------------------------------

/// What the session header of a rollout records.
#[derive(Debug, Clone)]
pub struct SessionMetaSummary {
    pub id: String,
    pub cwd: String,
    pub source: String,
    pub parent_thread_id: Option<String>,
    pub agent_nickname: Option<String>,
    pub agent_role: Option<String>,
    pub model_provider: Option<String>,
    pub cli_version: String,
    pub timestamp: String,
    pub memory_mode: Option<String>,
    pub history_mode: String,
}

/// One recorded line of a rollout, as far as listing reads it.
#[derive(Debug, Clone)]
pub enum RolloutRecord {
    SessionMeta(SessionMetaSummary),
    Other,
}

/// A session header, as plain values.
pub struct SessionMetaView {
    pub id: Seq<char>,
    pub cwd: Seq<char>,
    pub source: Seq<char>,
    pub parent_thread_id: Option<Seq<char>>,
    pub agent_nickname: Option<Seq<char>>,
    pub agent_role: Option<Seq<char>>,
    pub model_provider: Option<Seq<char>>,
    pub cli_version: Seq<char>,
    pub timestamp: Seq<char>,
    pub memory_mode: Option<Seq<char>>,
    pub history_mode: Seq<char>,
}

impl View for SessionMetaSummary {
    type V = SessionMetaView;

    open spec fn view(&self) -> SessionMetaView {
        SessionMetaView {
            id: self.id@,
            cwd: self.cwd@,
            source: self.source@,
            parent_thread_id: opt_view(self.parent_thread_id),
            agent_nickname: opt_view(self.agent_nickname),
            agent_role: opt_view(self.agent_role),
            model_provider: opt_view(self.model_provider),
            cli_version: self.cli_version@,
            timestamp: self.timestamp@,
            memory_mode: opt_view(self.memory_mode),
            history_mode: self.history_mode@,
        }
    }
}

/// A rollout line, as plain values.
pub enum RolloutRecordView {
    SessionMeta(SessionMetaView),
    Other,
}

impl View for RolloutRecord {
    type V = RolloutRecordView;

    open spec fn view(&self) -> RolloutRecordView {
        match self {
            RolloutRecord::SessionMeta(m) => RolloutRecordView::SessionMeta(m@),
            RolloutRecord::Other => RolloutRecordView::Other,
        }
    }
}

pub open spec fn records_view(s: Seq<RolloutRecord>) -> Seq<RolloutRecordView> {
    s.map_values(|r: RolloutRecord| r@)
}

pub fn clone_meta(m: &SessionMetaSummary) -> (r: SessionMetaSummary)
    ensures
        r@ == m@,
{
    SessionMetaSummary {
        id: clone_string(&m.id),
        cwd: clone_string(&m.cwd),
        source: clone_string(&m.source),
        parent_thread_id: clone_opt_string(&m.parent_thread_id),
        agent_nickname: clone_opt_string(&m.agent_nickname),
        agent_role: clone_opt_string(&m.agent_role),
        model_provider: clone_opt_string(&m.model_provider),
        cli_version: clone_string(&m.cli_version),
        timestamp: clone_string(&m.timestamp),
        memory_mode: clone_opt_string(&m.memory_mode),
        history_mode: clone_string(&m.history_mode),
    }
}

pub fn clone_records(v: &Vec<RolloutRecord>) -> (r: Vec<RolloutRecord>)
    ensures
        records_view(r@) == records_view(v@),
{
    let mut out: Vec<RolloutRecord> = Vec::new();
    let mut i: usize = 0;
    while i < v.len()
        invariant
            i <= v@.len(),
            records_view(out@) == records_view(v@.subrange(0, i as int)),
        decreases v.len() - i,
    {
        let c = match &v[i] {
            RolloutRecord::SessionMeta(m) => RolloutRecord::SessionMeta(clone_meta(m)),
            RolloutRecord::Other => RolloutRecord::Other,
        };
        assert(c@ == v@[i as int]@);
        let ghost before = records_view(out@);
        out.push(c);
        assert(records_view(out@) =~= before.push(c@));
        assert(records_view(out@) =~= records_view(v@.subrange(0, i + 1)));
        i = i + 1;
    }
    assert(v@.subrange(0, v@.len() as int) =~= v@);
    out
}

#[derive(Debug)]
pub struct ThreadItem {
    pub path: String,
    pub thread_id: Option<String>,
    pub first_user_message: Option<String>,
    pub preview: Option<String>,
    pub cwd: Option<String>,
    pub git_branch: Option<String>,
    pub git_sha: Option<String>,
    pub git_origin_url: Option<String>,
    pub source: Option<String>,
    pub parent_thread_id: Option<String>,
    pub agent_nickname: Option<String>,
    pub agent_role: Option<String>,
    pub model_provider: Option<String>,
    pub cli_version: Option<String>,
    pub created_at: Option<String>,
    pub updated_at: Option<String>,
    pub recency_at: Option<String>,
}

pub struct ThreadItemView {
    pub path: Seq<char>,
    pub thread_id: Option<Seq<char>>,
    pub first_user_message: Option<Seq<char>>,
    pub preview: Option<Seq<char>>,
    pub cwd: Option<Seq<char>>,
    pub git_branch: Option<Seq<char>>,
    pub git_sha: Option<Seq<char>>,
    pub git_origin_url: Option<Seq<char>>,
    pub source: Option<Seq<char>>,
    pub parent_thread_id: Option<Seq<char>>,
    pub agent_nickname: Option<Seq<char>>,
    pub agent_role: Option<Seq<char>>,
    pub model_provider: Option<Seq<char>>,
    pub cli_version: Option<Seq<char>>,
    pub created_at: Option<Seq<char>>,
    pub updated_at: Option<Seq<char>>,
    pub recency_at: Option<Seq<char>>,
}

impl View for ThreadItem {
    type V = ThreadItemView;

    open spec fn view(&self) -> ThreadItemView {
        ThreadItemView {
            path: self.path@,
            thread_id: opt_view(self.thread_id),
            first_user_message: opt_view(self.first_user_message),
            preview: opt_view(self.preview),
            cwd: opt_view(self.cwd),
            git_branch: opt_view(self.git_branch),
            git_sha: opt_view(self.git_sha),
            git_origin_url: opt_view(self.git_origin_url),
            source: opt_view(self.source),
            parent_thread_id: opt_view(self.parent_thread_id),
            agent_nickname: opt_view(self.agent_nickname),
            agent_role: opt_view(self.agent_role),
            model_provider: opt_view(self.model_provider),
            cli_version: opt_view(self.cli_version),
            created_at: opt_view(self.created_at),
            updated_at: opt_view(self.updated_at),
            recency_at: opt_view(self.recency_at),
        }
    }
}

pub open spec fn items_view(v: Seq<ThreadItem>) -> Seq<ThreadItemView> {
    v.map_values(|t: ThreadItem| t@)
}

pub open spec fn is_first_meta(records: Seq<RolloutRecord>, i: int) -> bool {
    &&& 0 <= i < records.len()
    &&& records[i] is SessionMeta
    &&& forall|j: int| 0 <= j < i ==> !(#[trigger] records[j] is SessionMeta)
}

/// The first session header among `records`.
pub open spec fn first_meta(records: Seq<RolloutRecord>) -> Option<SessionMetaSummary> {
    if exists|i: int| is_first_meta(records, i) {
        let i = choose|i: int| is_first_meta(records, i);
        Some(records[i]->SessionMeta_0)
    } else {
        None
    }
}

/// The listing entry for the rollout at `path` with session header `meta`:
/// its timestamp serves as creation, update and recency time.
pub open spec fn thread_item_of(path: Seq<char>, meta: SessionMetaSummary) -> ThreadItemView {
    ThreadItemView {
        path,
        thread_id: Some(meta.id@),
        first_user_message: None,
        preview: None,
        cwd: Some(meta.cwd@),
        git_branch: None,
        git_sha: None,
        git_origin_url: None,
        source: Some(meta.source@),
        parent_thread_id: opt_view(meta.parent_thread_id),
        agent_nickname: opt_view(meta.agent_nickname),
        agent_role: opt_view(meta.agent_role),
        model_provider: opt_view(meta.model_provider),
        cli_version: Some(meta.cli_version@),
        created_at: Some(meta.timestamp@),
        updated_at: Some(meta.timestamp@),
        recency_at: Some(meta.timestamp@),
    }
}

pub open spec fn thread_item_spec(path: Seq<char>, records: Seq<RolloutRecord>) -> Option<
    ThreadItemView,
> {
    match first_meta(records) {
        Some(meta) => Some(thread_item_of(path, meta)),
        None => None,
    }
}

fn first_session_meta(records: &Vec<RolloutRecord>) -> (r: Option<&SessionMetaSummary>)
    ensures
        match r {
            Some(m) => first_meta(records@) == Some(*m),
            None => first_meta(records@) is None,
        },
{
    let mut i: usize = 0;
    while i < records.len()
        invariant
            i <= records@.len(),
            forall|j: int| 0 <= j < i ==> !(#[trigger] records@[j] is SessionMeta),
        decreases records.len() - i,
    {
        match &records[i] {
            RolloutRecord::SessionMeta(meta) => {
                assert(is_first_meta(records@, i as int));
                let ghost k = choose|k: int| is_first_meta(records@, k);
                assert(k == i) by {
                    if k < i {
                    } else if k > i {
                        assert(records@[i as int] is SessionMeta);
                    }
                }
                return Some(meta);
            },
            RolloutRecord::Other => {},
        }
        i = i + 1;
    }
    None
}

/// The listing entry of one stored rollout; a rollout without a session
/// header is not listed.
pub fn thread_item(path: String, records: &Vec<RolloutRecord>) -> (r: Option<ThreadItem>)
    ensures
        match r {
            Some(item) => thread_item_spec(path@, records@) == Some(item@),
            None => thread_item_spec(path@, records@) is None,
        },
{
    match first_session_meta(records) {
        Some(meta) => {
            let item = ThreadItem {
                path,
                thread_id: Some(clone_string(&meta.id)),
                first_user_message: None,
                preview: None,
                cwd: Some(clone_string(&meta.cwd)),
                git_branch: None,
                git_sha: None,
                git_origin_url: None,
                source: Some(clone_string(&meta.source)),
                parent_thread_id: clone_opt_string(&meta.parent_thread_id),
                agent_nickname: clone_opt_string(&meta.agent_nickname),
                agent_role: clone_opt_string(&meta.agent_role),
                model_provider: clone_opt_string(&meta.model_provider),
                cli_version: Some(clone_string(&meta.cli_version)),
                created_at: Some(clone_string(&meta.timestamp)),
                updated_at: Some(clone_string(&meta.timestamp)),
                recency_at: Some(clone_string(&meta.timestamp)),
            };
            Some(item)
        },
        None => None,
    }
}

// ---------------------------------------------------------------------------
// Paths (compared component by component, as `std::path` does)
// ---------------------------------------------------------------------------

/// What `std::path::Path::starts_with` answers for these two paths.
pub uninterp spec fn path_starts_with(path: Seq<char>, base: Seq<char>) -> bool;

/// What `==` on `std::path::Path` answers for these two paths.
pub uninterp spec fn same_path(a: Seq<char>, b: Seq<char>) -> bool;

/// `std::path::Path::starts_with`: whether the components of `base` begin
/// the components of `path`. Its result is a function of the two texts.
#[verifier::external_body]
fn path_has_prefix(path: &str, base: &str) -> (r: bool)
    ensures
        r == path_starts_with(path@, base@),
{
    std::path::Path::new(path).starts_with(base)
}

/// `==` on `std::path::Path`: whether the two paths have the same
/// components. Its result is a function of the two texts; comparing
/// components is symmetric, and a text has the same components as itself.
#[verifier::external_body]
fn paths_equal(a: &str, b: &str) -> (r: bool)
    ensures
        r == same_path(a@, b@),
        r == same_path(b@, a@),
        a@ == b@ ==> r,
{
    std::path::Path::new(a) == std::path::Path::new(b)
}

/// Whether the components of `base` begin those of `path` (see
/// `path_has_prefix`).
pub fn path_is_under(path: &str, base: &str) -> (r: bool)
    ensures
        r == path_starts_with(path@, base@),
{
    path_has_prefix(path, base)
}

/// Whether two texts name the same path (see `paths_equal`).
pub fn paths_are_equal(a: &str, b: &str) -> (r: bool)
    ensures
        r == same_path(a@, b@),
        r == same_path(b@, a@),
        a@ == b@ ==> r,
{
    paths_equal(a, b)
}

// ---------------------------------------------------------------------------
// Listing threads
// ---------------------------------------------------------------------------

pub open spec fn strings_contain(v: Seq<String>, x: Seq<char>) -> bool {
    exists|i: int| 0 <= i < v.len() && #[trigger] v[i]@ == x
}

pub open spec fn any_same_path(v: Seq<String>, x: Seq<char>) -> bool {
    exists|i: int| 0 <= i < v.len() && same_path(x, #[trigger] v[i]@)
}

/// Whether a listed thread passes the source, provider and directory filters:
/// an empty source list allows every source; no provider or directory list
/// allows every provider or directory.
pub open spec fn passes_filters(
    item: ThreadItemView,
    allowed_sources: Seq<String>,
    model_providers: Option<Seq<String>>,
    cwd_filters: Option<Seq<String>>,
) -> bool {
    &&& (allowed_sources.len() == 0 || (item.source matches Some(s) && strings_contain(
        allowed_sources,
        s,
    )))
    &&& (model_providers matches Some(ps) ==> (item.model_provider matches Some(p)
        && strings_contain(ps, p)))
    &&& (cwd_filters matches Some(fs) ==> (item.cwd matches Some(c) && any_same_path(fs, c)))
}

/// The threads of the stored rollouts `entries` (in the order given) that lie
/// under `codex_home` and pass the filters.
pub open spec fn listed_threads(
    entries: Seq<(String, Vec<RolloutRecord>)>,
    codex_home: Seq<char>,
    allowed_sources: Seq<String>,
    model_providers: Option<Seq<String>>,
    cwd_filters: Option<Seq<String>>,
) -> Seq<ThreadItemView>
    decreases entries.len(),
{
    if entries.len() == 0 {
        Seq::empty()
    } else {
        let rest = listed_threads(
            entries.drop_last(),
            codex_home,
            allowed_sources,
            model_providers,
            cwd_filters,
        );
        let (path, records) = entries.last();
        match thread_item_spec(path@, records@) {
            Some(item) => if path_starts_with(path@, codex_home) && passes_filters(
                item,
                allowed_sources,
                model_providers,
                cwd_filters,
            ) {
                rest.push(item)
            } else {
                rest
            },
            None => rest,
        }
    }
}

/// `<` on `Option<String>`: nothing comes before any text.
pub open spec fn opt_text_lt(a: Option<Seq<char>>, b: Option<Seq<char>>) -> bool {
    match (a, b) {
        (None, Some(_)) => true,
        (Some(x), Some(y)) => seq_lt(x, y),
        _ => false,
    }
}

/// `x` placed after every entry of `sorted` created no earlier than it.
pub open spec fn insert_newest_first(sorted: Seq<ThreadItemView>, x: ThreadItemView) -> Seq<
    ThreadItemView,
>
    decreases sorted.len(),
{
    if sorted.len() == 0 {
        seq![x]
    } else if opt_text_lt(sorted[0].created_at, x.created_at) {
        seq![x] + sorted
    } else {
        seq![sorted[0]] + insert_newest_first(sorted.drop_first(), x)
    }
}

/// The threads newest first by creation time; threads created at the same
/// time keep their order (a stable sort).
pub open spec fn newest_first(s: Seq<ThreadItemView>) -> Seq<ThreadItemView>
    decreases s.len(),
{
    if s.len() == 0 {
        Seq::empty()
    } else {
        insert_newest_first(newest_first(s.drop_last()), s.last())
    }
}

proof fn lemma_insert_at(sorted: Seq<ThreadItemView>, x: ThreadItemView, i: int)
    requires
        0 <= i <= sorted.len(),
        forall|j: int| 0 <= j < i ==> !opt_text_lt(#[trigger] sorted[j].created_at, x.created_at),
        i < sorted.len() ==> opt_text_lt(sorted[i].created_at, x.created_at),
    ensures
        insert_newest_first(sorted, x) == sorted.insert(i, x),
    decreases i,
{
    if i == 0 {
        if sorted.len() == 0 {
            assert(sorted.insert(0, x) =~= seq![x]);
        } else {
            assert(sorted.insert(0, x) =~= seq![x] + sorted);
        }
    } else {
        let rest = sorted.drop_first();
        assert forall|j: int| 0 <= j < i - 1 implies !opt_text_lt(
            #[trigger] rest[j].created_at,
            x.created_at,
        ) by {
            assert(rest[j] == sorted[j + 1]);
        }
        if i - 1 < rest.len() {
            assert(rest[i - 1] == sorted[i]);
        }
        lemma_insert_at(rest, x, i - 1);
        assert(!opt_text_lt(sorted[0].created_at, x.created_at));
        assert(sorted.insert(i, x) =~= seq![sorted[0]] + rest.insert(i - 1, x));
    }
}

fn opt_text_less(a: &Option<String>, b: &Option<String>) -> (r: bool)
    ensures
        r == opt_text_lt(opt_view(*a), opt_view(*b)),
{
    match (a, b) {
        (None, Some(_)) => true,
        (Some(x), Some(y)) => str_lt(x.as_str(), y.as_str()),
        _ => false,
    }
}

/// Adds `x` to threads sorted newest first.
fn insert_thread(sorted: &mut Vec<ThreadItem>, x: ThreadItem)
    ensures
        items_view(final(sorted)@) == insert_newest_first(items_view(old(sorted)@), x@),
{
    let ghost before = items_view(sorted@);
    let mut i: usize = 0;
    while i < sorted.len() && !opt_text_less(&sorted[i].created_at, &x.created_at)
        invariant
            i <= sorted@.len(),
            before == items_view(sorted@),
            forall|j: int|
                0 <= j < i ==> !opt_text_lt(#[trigger] before[j].created_at, x@.created_at),
        decreases sorted.len() - i,
    {
        i = i + 1;
    }
    proof {
        lemma_insert_at(before, x@, i as int);
    }
    sorted.insert(i, x);
    assert(items_view(sorted@) =~= before.insert(i as int, x@));
}

fn contains_string(v: &Vec<String>, x: &str) -> (r: bool)
    ensures
        r == strings_contain(v@, x@),
{
    let mut i: usize = 0;
    while i < v.len()
        invariant
            i <= v@.len(),
            forall|j: int| 0 <= j < i ==> #[trigger] v@[j]@ != x@,
        decreases v.len() - i,
    {
        if crate::text::str_eq(v[i].as_str(), x) {
            return true;
        }
        i = i + 1;
    }
    false
}

fn contains_same_path(v: &Vec<String>, x: &str) -> (r: bool)
    ensures
        r == any_same_path(v@, x@),
{
    let mut i: usize = 0;
    while i < v.len()
        invariant
            i <= v@.len(),
            forall|j: int| 0 <= j < i ==> !same_path(x@, #[trigger] v@[j]@),
        decreases v.len() - i,
    {
        if paths_equal(x, v[i].as_str()) {
            return true;
        }
        i = i + 1;
    }
    false
}

fn thread_passes_filters(
    item: &ThreadItem,
    allowed_sources: &Vec<String>,
    model_providers: Option<&Vec<String>>,
    cwd_filters: Option<&Vec<String>>,
) -> (r: bool)
    ensures
        r == passes_filters(
            item@,
            allowed_sources@,
            match model_providers {
                Some(v) => Some(v@),
                None => None,
            },
            match cwd_filters {
                Some(v) => Some(v@),
                None => None,
            },
        ),
{
    let source_ok = allowed_sources.len() == 0 || match &item.source {
        Some(s) => contains_string(allowed_sources, s.as_str()),
        None => false,
    };
    let provider_ok = match model_providers {
        None => true,
        Some(ps) => match &item.model_provider {
            Some(p) => contains_string(ps, p.as_str()),
            None => false,
        },
    };
    let cwd_ok = match cwd_filters {
        None => true,
        Some(fs) => match &item.cwd {
            Some(c) => contains_same_path(fs, c.as_str()),
            None => false,
        },
    };
    source_ok && provider_ok && cwd_ok
}

pub open spec fn opt_vec_view(o: Option<&Vec<String>>) -> Option<Seq<String>> {
    match o {
        Some(v) => Some(v@),
        None => None,
    }
}

#[derive(Debug)]
pub struct ThreadsPage {
    pub items: Vec<ThreadItem>,
    pub next_cursor: Option<Cursor>,
    pub num_scanned_files: usize,
    pub reached_scan_cap: bool,
}

/// The page of `sorted` that starts at the cursor's offset (0 without one)
/// and holds at most `page_size` threads, each bound clamped to the listing;
/// the next cursor points past the page unless the page reaches the end.
pub open spec fn page_of(
    sorted: Seq<ThreadItemView>,
    page_size: int,
    cursor: Option<Cursor>,
    page: ThreadsPage,
) -> bool {
    let n = sorted.len() as int;
    let start = match cursor {
        Some(c) => c.offset_spec() as int,
        None => 0,
    };
    let offset = if start < n {
        start
    } else {
        n
    };
    let end = if offset + page_size < n {
        offset + page_size
    } else {
        n
    };
    &&& items_view(page.items@) == sorted.subrange(offset, end)
    &&& match page.next_cursor {
        Some(c) => end < n && c.offset_spec() == end,
        None => end >= n,
    }
    &&& page.num_scanned_files == n
    &&& !page.reached_scan_cap
}

/// One page of the threads of the stored rollouts `entries`, newest first
/// (see `listed_threads`, `newest_first` and `page_of`). `entries` may come
/// in any order: threads created at the same time keep that order.
pub fn get_threads(
    entries: &Vec<(String, Vec<RolloutRecord>)>,
    codex_home: &str,
    page_size: usize,
    cursor: Option<&Cursor>,
    sort_key: ThreadSortKey,
    allowed_sources: &Vec<String>,
    model_providers: Option<&Vec<String>>,
    cwd_filters: Option<&Vec<String>>,
    default_provider: &str,
) -> (r: ThreadsPage)
    ensures
        page_of(
            newest_first(
                listed_threads(
                    entries@,
                    codex_home@,
                    allowed_sources@,
                    opt_vec_view(model_providers),
                    opt_vec_view(cwd_filters),
                ),
            ),
            page_size as int,
            match cursor {
                Some(c) => Some(*c),
                None => None,
            },
            r,
        ),
{
    let ghost providers = opt_vec_view(model_providers);
    let ghost cwds = opt_vec_view(cwd_filters);
    let mut sorted: Vec<ThreadItem> = Vec::new();
    let mut i: usize = 0;
    while i < entries.len()
        invariant
            i <= entries@.len(),
            providers == opt_vec_view(model_providers),
            cwds == opt_vec_view(cwd_filters),
            items_view(sorted@) == newest_first(
                listed_threads(
                    entries@.subrange(0, i as int),
                    codex_home@,
                    allowed_sources@,
                    providers,
                    cwds,
                ),
            ),
        decreases entries.len() - i,
    {
        let ghost prefix = entries@.subrange(0, i + 1);
        assert(prefix.drop_last() =~= entries@.subrange(0, i as int));
        let ghost rest = listed_threads(
            entries@.subrange(0, i as int),
            codex_home@,
            allowed_sources@,
            providers,
            cwds,
        );
        let (path, records) = &entries[i];
        assert(prefix.last() == entries@[i as int]);
        let ghost whole = listed_threads(prefix, codex_home@, allowed_sources@, providers, cwds);
        if path_has_prefix(path.as_str(), codex_home) {
            match thread_item(clone_string(path), records) {
                Some(item) => {
                    if thread_passes_filters(&item, allowed_sources, model_providers, cwd_filters) {
                        assert(whole == rest.push(item@));
                        assert(rest.push(item@).drop_last() =~= rest);
                        insert_thread(&mut sorted, item);
                    } else {
                        assert(whole == rest);
                    }
                },
                None => {
                    assert(whole == rest);
                },
            }
        } else {
            assert(whole == rest);
        }
        i = i + 1;
    }
    assert(entries@.subrange(0, entries@.len() as int) =~= entries@);
    let ghost all = items_view(sorted@);
    let n = sorted.len();
    let start: usize = match cursor {
        Some(c) => c.offset,
        None => 0,
    };
    let offset = if start < n {
        start
    } else {
        n
    };
    let end = match offset.checked_add(page_size) {
        Some(e) => if e < n {
            e
        } else {
            n
        },
        None => n,
    };
    let next_cursor = if end < n {
        Some(Cursor { offset: end })
    } else {
        None
    };
    let mut page_items = sorted.split_off(offset);
    page_items.truncate(end - offset);
    assert(items_view(page_items@) =~= all.subrange(offset as int, end as int));
    ThreadsPage { items: page_items, next_cursor, num_scanned_files: n, reached_scan_cap: false }
}

/// The text a search looks at: the preview, else the first user message.
pub open spec fn shown_text(item: ThreadItemView) -> Option<Seq<char>> {
    match item.preview {
        Some(p) => Some(p),
        None => item.first_user_message,
    }
}

/// Whether a thread's shown text contains `term`, ignoring ASCII case.
pub open spec fn matches_search(item: ThreadItemView, term: Seq<char>) -> bool {
    shown_text(item) matches Some(t) && contains_seq(lower_seq(t), lower_seq(term))
}

pub open spec fn search_filtered(items: Seq<ThreadItemView>, term: Seq<char>) -> Seq<
    ThreadItemView,
>
    decreases items.len(),
{
    if items.len() == 0 {
        Seq::empty()
    } else {
        let rest = search_filtered(items.drop_last(), term);
        if matches_search(items.last(), term) {
            rest.push(items.last())
        } else {
            rest
        }
    }
}

/// The threads in reverse order.
fn reverse_items(v: Vec<ThreadItem>) -> (r: Vec<ThreadItem>)
    ensures
        items_view(r@) == items_view(v@).reverse(),
{
    let ghost orig = items_view(v@);
    let ghost n = v@.len();
    let mut rest = v;
    let mut out: Vec<ThreadItem> = Vec::new();
    while rest.len() > 0
        invariant
            n == orig.len(),
            rest@.len() + out@.len() == n,
            items_view(rest@) == orig.subrange(0, rest@.len() as int),
            forall|j: int| 0 <= j < out@.len() ==> #[trigger] out@[j]@ == orig[n - 1 - j],
        decreases rest.len(),
    {
        let ghost k = rest@.len();
        let ghost before = rest@;
        let x = rest.pop().unwrap();
        assert(x@ == orig[k - 1]) by {
            assert(items_view(before)[k - 1] == x@);
        }
        out.push(x);
        assert(items_view(rest@) =~= orig.subrange(0, rest@.len() as int));
    }
    assert(items_view(out@) =~= orig.reverse());
    out
}

fn thread_matches_search(item: &ThreadItem, lowered_term: &str) -> (r: bool)
    ensures
        r == (shown_text(item@) matches Some(t) && contains_seq(lower_seq(t), lowered_term@)),
{
    let shown = match &item.preview {
        Some(p) => Some(p),
        None => match &item.first_user_message {
            Some(m) => Some(m),
            None => None,
        },
    };
    match shown {
        Some(t) => {
            let lowered = to_ascii_lowercase(t.as_str());
            contains_str(lowered.as_str(), lowered_term)
        },
        None => false,
    }
}

/// The page with only the threads that match `search_term` (when there is
/// one), reversed into oldest-first order for ascending listings.
pub fn filter_page(page: ThreadsPage, sort_direction: SortDirection, search_term: Option<&str>) -> (r:
    ThreadsPage)
    ensures
        ({
            let kept = match search_term {
                Some(t) => search_filtered(items_view(page.items@), t@),
                None => items_view(page.items@),
            };
            items_view(r.items@) == if sort_direction == SortDirection::Asc {
                kept.reverse()
            } else {
                kept
            }
        }),
        r.next_cursor == page.next_cursor,
        r.num_scanned_files == page.num_scanned_files,
        r.reached_scan_cap == page.reached_scan_cap,
{
    let ThreadsPage { items, next_cursor, num_scanned_files, reached_scan_cap } = page;
    let ghost original = items_view(items@);
    let ascending = match sort_direction {
        SortDirection::Asc => true,
        SortDirection::Desc => false,
    };
    let out = match search_term {
        Some(term) => {
            let lowered_term = to_ascii_lowercase(term);
            let mut rest = items;
            let mut rev_kept: Vec<ThreadItem> = Vec::new();
            let ghost mut tail: Seq<ThreadItemView> = Seq::empty();
            while rest.len() > 0
                invariant
                    lowered_term@ == lower_seq(term@),
                    search_filtered(original, term@) == search_filtered(items_view(rest@), term@)
                        + tail,
                    items_view(rev_kept@) == tail.reverse(),
                decreases rest.len(),
            {
                let ghost before = items_view(rest@);
                let x = rest.pop().unwrap();
                assert(before.drop_last() =~= items_view(rest@));
                assert(before.last() == x@);
                if thread_matches_search(&x, lowered_term.as_str()) {
                    proof {
                        let t2 = seq![x@] + tail;
                        assert(t2.reverse() =~= tail.reverse().push(x@));
                        assert(search_filtered(before, term@) == search_filtered(
                            items_view(rest@),
                            term@,
                        ).push(x@));
                        assert(search_filtered(items_view(rest@), term@).push(x@) + tail
                            =~= search_filtered(items_view(rest@), term@) + t2);
                        tail = t2;
                    }
                    rev_kept.push(x);
                    assert(items_view(rev_kept@) =~= tail.reverse());
                }
            }
            assert(search_filtered(items_view(rest@), term@) =~= Seq::<ThreadItemView>::empty());
            assert(Seq::<ThreadItemView>::empty() + tail =~= tail);
            if ascending {
                rev_kept
            } else {
                let r = reverse_items(rev_kept);
                assert(tail.reverse().reverse() =~= tail);
                r
            }
        },
        None => {
            if ascending {
                reverse_items(items)
            } else {
                items
            }
        },
    };
    ThreadsPage { items: out, next_cursor, num_scanned_files, reached_scan_cap }
}

/// One page of threads as `get_threads` lists them, then searched and
/// ordered as `filter_page` does.
pub fn list_threads(
    entries: &Vec<(String, Vec<RolloutRecord>)>,
    codex_home: &str,
    page_size: usize,
    cursor: Option<&Cursor>,
    sort_key: ThreadSortKey,
    sort_direction: SortDirection,
    allowed_sources: &Vec<String>,
    model_providers: Option<&Vec<String>>,
    cwd_filters: Option<&Vec<String>>,
    default_provider: &str,
    search_term: Option<&str>,
) -> (r: ThreadsPage)
    ensures
        exists|page: ThreadsPage|
            {
                &&& page_of(
                    newest_first(
                        listed_threads(
                            entries@,
                            codex_home@,
                            allowed_sources@,
                            opt_vec_view(model_providers),
                            opt_vec_view(cwd_filters),
                        ),
                    ),
                    page_size as int,
                    match cursor {
                        Some(c) => Some(*c),
                        None => None,
                    },
                    page,
                )
                &&& items_view(r.items@) == ({
                    let kept = match search_term {
                        Some(t) => search_filtered(items_view(page.items@), t@),
                        None => items_view(page.items@),
                    };
                    if sort_direction == SortDirection::Asc {
                        kept.reverse()
                    } else {
                        kept
                    }
                })
                &&& r.next_cursor == page.next_cursor
                &&& r.num_scanned_files == page.num_scanned_files
                &&& r.reached_scan_cap == page.reached_scan_cap
            },
{
    let page = get_threads(
        entries,
        codex_home,
        page_size,
        cursor,
        sort_key,
        allowed_sources,
        model_providers,
        cwd_filters,
        default_provider,
    );
    let ghost p = page;
    let r = filter_page(page, sort_direction, search_term);
    assert(page_of(
        newest_first(
            listed_threads(
                entries@,
                codex_home@,
                allowed_sources@,
                opt_vec_view(model_providers),
                opt_vec_view(cwd_filters),
            ),
        ),
        page_size as int,
        match cursor {
            Some(c) => Some(*c),
            None => None,
        },
        p,
    ));
    r
}


// ---------------------------------------------------------------------------
// Laws of the listing order
// ---------------------------------------------------------------------------

proof fn lemma_seq_lt_transitive(a: Seq<char>, b: Seq<char>, c: Seq<char>)
    requires
        seq_lt(a, b),
        seq_lt(b, c),
    ensures
        seq_lt(a, c),
    decreases a.len(),
{
    if a.len() > 0 && b.len() > 0 && c.len() > 0 && a[0] == b[0] && b[0] == c[0] {
        lemma_seq_lt_transitive(a.drop_first(), b.drop_first(), c.drop_first());
    }
}

proof fn lemma_opt_text_lt_transitive(a: Option<Seq<char>>, b: Option<Seq<char>>, c: Option<Seq<char>>)
    requires
        opt_text_lt(a, b),
        opt_text_lt(b, c),
    ensures
        opt_text_lt(a, c),
{
    if let (Some(x), Some(y), Some(z)) = (a, b, c) {
        lemma_seq_lt_transitive(x, y, z);
    }
}

pub open spec fn newest_first_sorted(s: Seq<ThreadItemView>) -> bool {
    forall|i: int, j: int|
        0 <= i < j < s.len() ==> !opt_text_lt(#[trigger] s[i].created_at, #[trigger] s[j].created_at)
}

proof fn lemma_insert_keeps_sorted(sorted: Seq<ThreadItemView>, x: ThreadItemView)
    requires
        newest_first_sorted(sorted),
    ensures
        newest_first_sorted(insert_newest_first(sorted, x)),
        insert_newest_first(sorted, x).len() == sorted.len() + 1,
        forall|e: ThreadItemView| #[trigger] insert_newest_first(sorted, x).contains(e) <==> (e == x
            || sorted.contains(e)),
    decreases sorted.len(),
{
    let r = insert_newest_first(sorted, x);
    if sorted.len() == 0 {
        assert forall|e: ThreadItemView| r.contains(e) <==> (e == x || sorted.contains(e)) by {
            if r.contains(e) {
                assert(r[0] == x);
            }
            if e == x {
                assert(r[0] == e);
            }
        }
    } else if opt_text_lt(sorted[0].created_at, x.created_at) {
        assert forall|i: int, j: int| 0 <= i < j < r.len() implies !opt_text_lt(
            #[trigger] r[i].created_at,
            #[trigger] r[j].created_at,
        ) by {
            if i == 0 {
                assert(r[j] == sorted[j - 1]);
                if j - 1 > 0 {
                    assert(!opt_text_lt(sorted[0].created_at, sorted[j - 1].created_at));
                }
                if opt_text_lt(x.created_at, sorted[j - 1].created_at) {
                    if j - 1 == 0 {
                        lemma_opt_text_lt_transitive(
                            sorted[0].created_at,
                            x.created_at,
                            sorted[0].created_at,
                        );
                        lemma_opt_irreflexive(sorted[0].created_at);
                    } else {
                        lemma_opt_text_lt_transitive(
                            sorted[0].created_at,
                            x.created_at,
                            sorted[j - 1].created_at,
                        );
                    }
                }
            } else {
                assert(r[i] == sorted[i - 1]);
                assert(r[j] == sorted[j - 1]);
            }
        }
        assert forall|e: ThreadItemView| r.contains(e) <==> (e == x || sorted.contains(e)) by {
            if r.contains(e) {
                let k = choose|k: int| 0 <= k < r.len() && r[k] == e;
                if k > 0 {
                    assert(sorted[k - 1] == e);
                }
            }
            if sorted.contains(e) {
                let k = choose|k: int| 0 <= k < sorted.len() && sorted[k] == e;
                assert(r[k + 1] == e);
            }
            if e == x {
                assert(r[0] == e);
            }
        }
    } else {
        let rest = sorted.drop_first();
        assert forall|i: int, j: int| 0 <= i < j < rest.len() implies !opt_text_lt(
            #[trigger] rest[i].created_at,
            #[trigger] rest[j].created_at,
        ) by {
            assert(rest[i] == sorted[i + 1]);
            assert(rest[j] == sorted[j + 1]);
        }
        lemma_insert_keeps_sorted(rest, x);
        let t = insert_newest_first(rest, x);
        assert(r == seq![sorted[0]] + t);
        assert forall|i: int, j: int| 0 <= i < j < r.len() implies !opt_text_lt(
            #[trigger] r[i].created_at,
            #[trigger] r[j].created_at,
        ) by {
            if i == 0 {
                assert(r[j] == t[j - 1]);
                assert(t.contains(t[j - 1]));
                if t[j - 1] == x {
                } else {
                    assert(rest.contains(t[j - 1]));
                    let k = choose|k: int| 0 <= k < rest.len() && rest[k] == t[j - 1];
                    assert(sorted[k + 1] == t[j - 1]);
                }
            } else {
                assert(r[i] == t[i - 1]);
                assert(r[j] == t[j - 1]);
            }
        }
        assert forall|e: ThreadItemView| r.contains(e) <==> (e == x || sorted.contains(e)) by {
            if r.contains(e) {
                let k = choose|k: int| 0 <= k < r.len() && r[k] == e;
                if k > 0 {
                    assert(t[k - 1] == e);
                    assert(t.contains(e));
                    if e != x {
                        assert(rest.contains(e));
                        let m = choose|m: int| 0 <= m < rest.len() && rest[m] == e;
                        assert(sorted[m + 1] == e);
                    }
                } else {
                    assert(sorted[0] == e);
                }
            }
            if sorted.contains(e) {
                let k = choose|k: int| 0 <= k < sorted.len() && sorted[k] == e;
                if k > 0 {
                    assert(rest[k - 1] == e);
                    assert(rest.contains(e));
                    assert(t.contains(e));
                    let m = choose|m: int| 0 <= m < t.len() && t[m] == e;
                    assert(r[m + 1] == e);
                } else {
                    assert(r[0] == e);
                }
            }
            if e == x {
                assert(t.contains(x));
                let m = choose|m: int| 0 <= m < t.len() && t[m] == x;
                assert(r[m + 1] == x);
            }
        }
    }
}

proof fn lemma_opt_irreflexive(a: Option<Seq<char>>)
    ensures
        !opt_text_lt(a, a),
{
    if let Some(x) = a {
        crate::text::lemma_seq_lt_irreflexive(x);
    }
}

/// Threads are listed newest first: no listed thread was created before a
/// thread listed after it, and ordering neither drops nor adds a thread.
pub proof fn law_listing_newest_first(s: Seq<ThreadItemView>)
    ensures
        newest_first_sorted(newest_first(s)),
        newest_first(s).len() == s.len(),
        forall|e: ThreadItemView| #[trigger] newest_first(s).contains(e) <==> s.contains(e),
    decreases s.len(),
{
    if s.len() > 0 {
        law_listing_newest_first(s.drop_last());
        lemma_insert_keeps_sorted(newest_first(s.drop_last()), s.last());
        assert forall|e: ThreadItemView| #[trigger] newest_first(s).contains(e) <==> s.contains(
            e,
        ) by {
            if s.contains(e) {
                let k = choose|k: int| 0 <= k < s.len() && s[k] == e;
                if k < s.len() - 1 {
                    assert(s.drop_last()[k] == e);
                }
            }
            if s.drop_last().contains(e) {
                let k = choose|k: int| 0 <= k < s.drop_last().len() && s.drop_last()[k] == e;
                assert(s[k] == e);
            }
        }
    }
}


// ---------------------------------------------------------------------------
// Dates in rollout file names
// ---------------------------------------------------------------------------

/// The number of bytes UTF-8 takes for `c`.
pub open spec fn utf8_len(c: char) -> int {
    if (c as u32) < 0x80 {
        1
    } else if (c as u32) < 0x800 {
        2
    } else if (c as u32) < 0x10000 {
        3
    } else {
        4
    }
}

/// The index of the character that starts at byte `b` of `s` (the length of
/// `s` when `b` is its byte length), if a character starts there.
pub open spec fn char_at_byte(s: Seq<char>, b: int) -> Option<int>
    decreases s.len(),
{
    if b == 0 {
        Some(0)
    } else if b < 0 || s.len() == 0 {
        None
    } else {
        match char_at_byte(s.drop_first(), b - utf8_len(s[0])) {
            Some(k) => Some(k + 1),
            None => None,
        }
    }
}

/// `str::get(a..b)` on byte offsets: `None` unless both offsets fall on
/// character boundaries in order.
pub open spec fn str_get(s: Seq<char>, a: int, b: int) -> Option<Seq<char>> {
    match (char_at_byte(s, a), char_at_byte(s, b)) {
        (Some(i), Some(j)) => if i <= j {
            Some(s.subrange(i, j))
        } else {
            None
        },
        _ => None,
    }
}

pub open spec fn shift(o: Option<int>, k: int) -> Option<int> {
    match o {
        Some(x) => Some(x + k),
        None => None,
    }
}

fn utf8_width(c: char) -> (r: usize)
    ensures
        r == utf8_len(c),
{
    let v = c as u32;
    if v < 0x80 {
        1
    } else if v < 0x800 {
        2
    } else if v < 0x10000 {
        3
    } else {
        4
    }
}

fn char_index_at_byte(s: &str, b: usize) -> (r: Option<usize>)
    requires
        b <= 16,
    ensures
        match r {
            Some(k) => char_at_byte(s@, b as int) == Some(k as int),
            None => char_at_byte(s@, b as int) is None,
        },
{
    let n = s.unicode_len();
    let mut k: usize = 0;
    let mut acc: usize = 0;
    assert(s@.subrange(0, n as int) =~= s@);
    loop
        invariant
            n == s@.len(),
            k <= n,
            acc <= b,
            b <= 16,
            char_at_byte(s@, b as int) == shift(
                char_at_byte(s@.subrange(k as int, n as int), b - acc),
                k as int,
            ),
        decreases n - k,
    {
        let ghost rest = s@.subrange(k as int, n as int);
        if acc == b {
            return Some(k);
        }
        if k == n {
            return None;
        }
        let w = utf8_width(s.get_char(k));
        assert(rest[0] == s@[k as int]);
        assert(rest.drop_first() =~= s@.subrange(k + 1, n as int));
        assert(char_at_byte(rest, b - acc) == shift(
            char_at_byte(rest.drop_first(), b - acc - w),
            1,
        ));
        if acc + w > b {
            assert(char_at_byte(rest.drop_first(), b - acc - w) is None);
            return None;
        }
        acc = acc + w;
        k = k + 1;
    }
}

fn get_range<'a>(s: &'a str, a: usize, b: usize) -> (r: Option<&'a str>)
    requires
        a <= 16,
        b <= 16,
    ensures
        match r {
            Some(t) => str_get(s@, a as int, b as int) == Some(t@),
            None => str_get(s@, a as int, b as int) is None,
        },
{
    match (char_index_at_byte(s, a), char_index_at_byte(s, b)) {
        (Some(i), Some(j)) => {
            proof {
                lemma_char_at_byte_bound(s@, a as int);
                lemma_char_at_byte_bound(s@, b as int);
            }
            if i <= j {
                Some(s.substring_char(i, j))
            } else {
                None
            }
        },
        _ => None,
    }
}

proof fn lemma_char_at_byte_bound(s: Seq<char>, b: int)
    ensures
        char_at_byte(s, b) matches Some(k) ==> 0 <= k <= s.len(),
    decreases s.len(),
{
    if b != 0 && b >= 0 && s.len() > 0 {
        lemma_char_at_byte_bound(s.drop_first(), b - utf8_len(s[0]));
    }
}

/// The year, month and day of a rollout file named
/// `rollout-YYYY-MM-DD...`: the file name without its `rollout-` prefix
/// gives its first ten bytes, of which bytes 0..4, 5..7 and 8..10 are taken;
/// `None` where a piece does not fall on character boundaries.
pub open spec fn rollout_date_parts_spec(file_name: Seq<char>) -> Option<
    (Seq<char>, Seq<char>, Seq<char>),
> {
    if crate::text::starts_with_seq(file_name, "rollout-"@) {
        let rest = file_name.subrange(8, file_name.len() as int);
        match str_get(rest, 0, 10) {
            Some(date) => match (str_get(date, 0, 4), str_get(date, 5, 7), str_get(date, 8, 10)) {
                (Some(y), Some(m), Some(d)) => Some((y, m, d)),
                _ => None,
            },
            None => None,
        }
    } else {
        None
    }
}

/// The date pieces of a rollout file name (see `rollout_date_parts_spec`).
pub fn rollout_date_parts(file_name: &str) -> (r: Option<(String, String, String)>)
    ensures
        match r {
            Some((y, m, d)) => rollout_date_parts_spec(file_name@) == Some((y@, m@, d@)),
            None => rollout_date_parts_spec(file_name@) is None,
        },
{
    proof {
        reveal_strlit("rollout-");
    }
    let rest = match crate::text::strip_prefix(file_name, "rollout-") {
        Some(rest) => rest,
        None => return None,
    };
    let date = match get_range(rest, 0, 10) {
        Some(d) => d,
        None => return None,
    };
    let year = match get_range(date, 0, 4) {
        Some(y) => y,
        None => return None,
    };
    let month = match get_range(date, 5, 7) {
        Some(m) => m,
        None => return None,
    };
    let day = match get_range(date, 8, 10) {
        Some(d) => d,
        None => return None,
    };
    Some((owned(year), owned(month), owned(day)))
}


// ---------------------------------------------------------------------------
// Thread store configuration
// ---------------------------------------------------------------------------

/// Where the browser-local thread store keeps its data.
#[derive(Debug, Clone)]
pub struct LocalThreadStoreConfig {
    pub codex_home: String,
    pub sqlite_home: String,
    pub default_model_provider_id: String,
}

impl LocalThreadStoreConfig {
    /// The store configuration that `config` describes.
    pub fn from_config<V: RolloutConfigView>(config: &V) -> (r: Self)
        ensures
            r.codex_home@ == config.codex_home_spec(),
            r.sqlite_home@ == config.sqlite_home_spec(),
            r.default_model_provider_id@ == config.model_provider_id_spec(),
    {
        LocalThreadStoreConfig {
            codex_home: owned(config.codex_home()),
            sqlite_home: owned(config.sqlite_home()),
            default_model_provider_id: owned(config.model_provider_id()),
        }
    }
}


// ---------------------------------------------------------------------------
// Live rollout paths of the browser-local thread store
// ---------------------------------------------------------------------------

/// Why the thread store could not answer.
#[derive(Debug, Clone)]
pub enum ThreadStoreError {
    ThreadNotFound { thread_id: String },
}

/// The rollout path recorded for a thread: that of the first entry for it.
pub open spec fn recorded_path(entries: Seq<(String, String)>, thread_id: Seq<char>) -> Option<
    Seq<char>,
>
    decreases entries.len(),
{
    if entries.len() == 0 {
        None
    } else if entries[0].0@ == thread_id {
        Some(entries[0].1@)
    } else {
        recorded_path(entries.drop_first(), thread_id)
    }
}

/// The path a thread's rollout gets when none is given:
/// `<codex_home>/sessions/<thread id>.jsonl`.
pub open spec fn synthetic_rollout_path_spec(codex_home: Seq<char>, thread_id: Seq<char>) -> Seq<char> {
    crate::state::join_path_spec(
        crate::state::join_path_spec(codex_home, "sessions"@),
        thread_id + ".jsonl"@,
    )
}

/// The browser-local thread store's record of where each live thread's
/// rollout is.
pub struct LocalThreadStore {
    config: LocalThreadStoreConfig,
    rollout_paths: Vec<(String, String)>,
}

impl LocalThreadStore {
    pub closed spec fn paths_spec(&self) -> Seq<(String, String)> {
        self.rollout_paths@
    }

    pub closed spec fn home_spec(&self) -> Seq<char> {
        self.config.codex_home@
    }

    /// A store for `config` that knows no thread yet.
    pub fn new(config: LocalThreadStoreConfig) -> (r: Self)
        ensures
            r.paths_spec().len() == 0,
            r.home_spec() == config.codex_home@,
    {
        LocalThreadStore { config, rollout_paths: Vec::new() }
    }

    pub fn config(&self) -> (r: &LocalThreadStoreConfig)
        ensures
            r.codex_home@ == self.home_spec(),
    {
        &self.config
    }

    pub fn synthetic_rollout_path(&self, thread_id: &str) -> (r: String)
        ensures
            r@ == synthetic_rollout_path_spec(self.home_spec(), thread_id@),
    {
        let sessions = crate::state::join_path(self.config.codex_home.as_str(), "sessions");
        let file = crate::browser_cli::cat2(thread_id, ".jsonl");
        crate::state::join_path(sessions.as_str(), file.as_str())
    }

    fn find(&self, thread_id: &str) -> (r: Option<usize>)
        ensures
            match r {
                Some(i) => i < self.rollout_paths@.len() && self.rollout_paths@[i as int].0@
                    == thread_id@ && forall|j: int| 0 <= j < i ==> #[trigger] self.rollout_paths@[j].0@
                    != thread_id@,
                None => forall|j: int|
                    0 <= j < self.rollout_paths@.len() ==> #[trigger] self.rollout_paths@[j].0@
                        != thread_id@,
            },
    {
        let mut i: usize = 0;
        while i < self.rollout_paths.len()
            invariant
                i <= self.rollout_paths@.len(),
                forall|j: int| 0 <= j < i ==> #[trigger] self.rollout_paths@[j].0@ != thread_id@,
            decreases self.rollout_paths.len() - i,
        {
            if crate::text::str_eq(self.rollout_paths[i].0.as_str(), thread_id) {
                return Some(i);
            }
            i = i + 1;
        }
        None
    }

    /// Records `path` as the live rollout of `thread_id`.
    pub fn record_rollout_path(&mut self, thread_id: &str, path: String)
        ensures
            recorded_path(final(self).paths_spec(), thread_id@) == Some(path@),
            final(self).home_spec() == old(self).home_spec(),
    {
        let ghost p = path@;
        match self.find(thread_id) {
            Some(i) => {
                let ghost before = self.rollout_paths@;
                let key = clone_string(&self.rollout_paths[i].0);
                self.rollout_paths.set(i, (key, path));
                proof {
                    lemma_recorded_after_set(before, self.rollout_paths@, i as int, thread_id@);
                }
            },
            None => {
                let ghost before = self.rollout_paths@;
                self.rollout_paths.push((owned(thread_id), path));
                proof {
                    lemma_recorded_after_push(before, self.rollout_paths@, thread_id@);
                }
            },
        }
    }

    /// A created thread's rollout lives at its synthetic path.
    pub fn create_thread(&mut self, thread_id: &str)
        ensures
            recorded_path(final(self).paths_spec(), thread_id@) == Some(
                synthetic_rollout_path_spec(old(self).home_spec(), thread_id@),
            ),
            final(self).home_spec() == old(self).home_spec(),
    {
        let path = self.synthetic_rollout_path(thread_id);
        self.record_rollout_path(thread_id, path);
    }

    /// A resumed thread's rollout lives at the path given, else at its
    /// synthetic path.
    pub fn resume_thread(&mut self, thread_id: &str, rollout_path: Option<String>)
        ensures
            recorded_path(final(self).paths_spec(), thread_id@) == Some(
                match rollout_path {
                    Some(p) => p@,
                    None => synthetic_rollout_path_spec(old(self).home_spec(), thread_id@),
                },
            ),
            final(self).home_spec() == old(self).home_spec(),
    {
        let path = match rollout_path {
            Some(p) => p,
            None => self.synthetic_rollout_path(thread_id),
        };
        self.record_rollout_path(thread_id, path);
    }

    /// A deleted thread has no live rollout.
    pub fn delete_thread(&mut self, thread_id: &str)
        ensures
            recorded_path(final(self).paths_spec(), thread_id@) is None,
            final(self).home_spec() == old(self).home_spec(),
    {
        let mut rest: Vec<(String, String)> = Vec::new();
        std::mem::swap(&mut rest, &mut self.rollout_paths);
        let mut kept: Vec<(String, String)> = Vec::new();
        while rest.len() > 0
            invariant
                forall|j: int| 0 <= j < kept@.len() ==> #[trigger] kept@[j].0@ != thread_id@,
            decreases rest.len(),
        {
            let entry = rest.remove(0);
            if !crate::text::str_eq(entry.0.as_str(), thread_id) {
                kept.push(entry);
            }
        }
        proof {
            lemma_recorded_none(kept@, thread_id@);
        }
        self.rollout_paths = kept;
    }

    /// The live rollout of `thread_id`, or "thread not found".
    pub fn live_rollout_path(&self, thread_id: &str) -> (r: Result<String, ThreadStoreError>)
        ensures
            match recorded_path(self.paths_spec(), thread_id@) {
                Some(p) => r matches Ok(x) && x@ == p,
                None => r matches Err(ThreadStoreError::ThreadNotFound { thread_id: t }) && t@
                    == thread_id@,
            },
    {
        match self.find(thread_id) {
            Some(i) => {
                proof {
                    lemma_recorded_at(self.rollout_paths@, i as int, thread_id@);
                }
                Ok(clone_string(&self.rollout_paths[i].1))
            },
            None => {
                proof {
                    lemma_recorded_none(self.rollout_paths@, thread_id@);
                }
                Err(ThreadStoreError::ThreadNotFound { thread_id: owned(thread_id) })
            },
        }
    }
}

proof fn lemma_recorded_at(entries: Seq<(String, String)>, i: int, id: Seq<char>)
    requires
        0 <= i < entries.len(),
        entries[i].0@ == id,
        forall|j: int| 0 <= j < i ==> #[trigger] entries[j].0@ != id,
    ensures
        recorded_path(entries, id) == Some(entries[i].1@),
    decreases i,
{
    if i > 0 {
        let rest = entries.drop_first();
        assert(entries[0].0@ != id);
        assert forall|j: int| 0 <= j < i - 1 implies #[trigger] rest[j].0@ != id by {
            assert(rest[j] == entries[j + 1]);
        }
        lemma_recorded_at(rest, i - 1, id);
    }
}

proof fn lemma_recorded_none(entries: Seq<(String, String)>, id: Seq<char>)
    requires
        forall|j: int| 0 <= j < entries.len() ==> #[trigger] entries[j].0@ != id,
    ensures
        recorded_path(entries, id) is None,
    decreases entries.len(),
{
    if entries.len() > 0 {
        let rest = entries.drop_first();
        assert(entries[0].0@ != id);
        assert forall|j: int| 0 <= j < rest.len() implies #[trigger] rest[j].0@ != id by {
            assert(rest[j] == entries[j + 1]);
        }
        lemma_recorded_none(rest, id);
    }
}

proof fn lemma_recorded_after_set(
    before: Seq<(String, String)>,
    after: Seq<(String, String)>,
    i: int,
    id: Seq<char>,
)
    requires
        0 <= i < before.len(),
        after == before.update(i, after[i]),
        after[i].0@ == id,
        forall|j: int| 0 <= j < i ==> #[trigger] before[j].0@ != id,
    ensures
        recorded_path(after, id) == Some(after[i].1@),
{
    assert forall|j: int| 0 <= j < i implies #[trigger] after[j].0@ != id by {
        assert(after[j] == before[j]);
    }
    lemma_recorded_at(after, i, id);
}

proof fn lemma_recorded_after_push(before: Seq<(String, String)>, after: Seq<(String, String)>, id: Seq<char>)
    requires
        after == before.push(after.last()),
        after.last().0@ == id,
        forall|j: int| 0 <= j < before.len() ==> #[trigger] before[j].0@ != id,
    ensures
        recorded_path(after, id) == Some(after.last().1@),
{
    assert forall|j: int| 0 <= j < before.len() implies #[trigger] after[j].0@ != id by {
        assert(after[j] == before[j]);
    }
    lemma_recorded_at(after, before.len() as int, id);
}

} // verus!
