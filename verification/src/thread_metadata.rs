use vstd::prelude::*;

use crate::browser_cli::clone_opt_string;
use crate::browser_cli::clone_string;
use crate::browser_cli::opt_view;
use crate::rollout::paths_are_equal;
use crate::rollout::same_path;
use crate::text::str_eq;
use crate::text::trim;
use crate::text::trim_seq;

verus! {

/// What the state store keeps of one thread. Times are milliseconds since the
/// Unix epoch; enumerations of the protocol (the thread source, the reasoning
/// effort, the sandbox policy, the approval mode) are kept as the text they
/// serialise to.
#[derive(Debug)]
pub struct ThreadMetadata {
    pub id: String,
    pub rollout_path: String,
    pub created_at: i64,
    pub updated_at: i64,
    pub source: String,
    pub thread_source: Option<String>,
    pub agent_nickname: Option<String>,
    pub agent_role: Option<String>,
    pub agent_path: Option<String>,
    pub model_provider: String,
    pub model: Option<String>,
    pub reasoning_effort: Option<String>,
    pub cwd: String,
    pub cli_version: String,
    pub title: String,
    pub preview: Option<String>,
    pub sandbox_policy: String,
    pub approval_mode: String,
    pub tokens_used: i64,
    pub first_user_message: Option<String>,
    pub archived_at: Option<i64>,
    pub git_sha: Option<String>,
    pub git_branch: Option<String>,
    pub git_origin_url: Option<String>,
}

/// A thread's metadata, as plain values.
#[verifier::ext_equal]
pub struct ThreadMetadataView {
    pub id: Seq<char>,
    pub rollout_path: Seq<char>,
    pub created_at: i64,
    pub updated_at: i64,
    pub source: Seq<char>,
    pub thread_source: Option<Seq<char>>,
    pub agent_nickname: Option<Seq<char>>,
    pub agent_role: Option<Seq<char>>,
    pub agent_path: Option<Seq<char>>,
    pub model_provider: Seq<char>,
    pub model: Option<Seq<char>>,
    pub reasoning_effort: Option<Seq<char>>,
    pub cwd: Seq<char>,
    pub cli_version: Seq<char>,
    pub title: Seq<char>,
    pub preview: Option<Seq<char>>,
    pub sandbox_policy: Seq<char>,
    pub approval_mode: Seq<char>,
    pub tokens_used: i64,
    pub first_user_message: Option<Seq<char>>,
    pub archived_at: Option<i64>,
    pub git_sha: Option<Seq<char>>,
    pub git_branch: Option<Seq<char>>,
    pub git_origin_url: Option<Seq<char>>,
}

impl View for ThreadMetadata {
    type V = ThreadMetadataView;

    open spec fn view(&self) -> ThreadMetadataView {
        ThreadMetadataView {
            id: self.id@,
            rollout_path: self.rollout_path@,
            created_at: self.created_at,
            updated_at: self.updated_at,
            source: self.source@,
            thread_source: opt_view(self.thread_source),
            agent_nickname: opt_view(self.agent_nickname),
            agent_role: opt_view(self.agent_role),
            agent_path: opt_view(self.agent_path),
            model_provider: self.model_provider@,
            model: opt_view(self.model),
            reasoning_effort: opt_view(self.reasoning_effort),
            cwd: self.cwd@,
            cli_version: self.cli_version@,
            title: self.title@,
            preview: opt_view(self.preview),
            sandbox_policy: self.sandbox_policy@,
            approval_mode: self.approval_mode@,
            tokens_used: self.tokens_used,
            first_user_message: opt_view(self.first_user_message),
            archived_at: self.archived_at,
            git_sha: opt_view(self.git_sha),
            git_branch: opt_view(self.git_branch),
            git_origin_url: opt_view(self.git_origin_url),
        }
    }
}

impl ThreadMetadata {
    /// A copy with the same plain values.
    pub fn duplicate(&self) -> (r: ThreadMetadata)
        ensures
            r@ == self@,
    {
        ThreadMetadata {
            id: clone_string(&self.id),
            rollout_path: clone_string(&self.rollout_path),
            created_at: self.created_at,
            updated_at: self.updated_at,
            source: clone_string(&self.source),
            thread_source: clone_opt_string(&self.thread_source),
            agent_nickname: clone_opt_string(&self.agent_nickname),
            agent_role: clone_opt_string(&self.agent_role),
            agent_path: clone_opt_string(&self.agent_path),
            model_provider: clone_string(&self.model_provider),
            model: clone_opt_string(&self.model),
            reasoning_effort: clone_opt_string(&self.reasoning_effort),
            cwd: clone_string(&self.cwd),
            cli_version: clone_string(&self.cli_version),
            title: clone_string(&self.title),
            preview: clone_opt_string(&self.preview),
            sandbox_policy: clone_string(&self.sandbox_policy),
            approval_mode: clone_string(&self.approval_mode),
            tokens_used: self.tokens_used,
            first_user_message: clone_opt_string(&self.first_user_message),
            archived_at: self.archived_at,
            git_sha: clone_opt_string(&self.git_sha),
            git_branch: clone_opt_string(&self.git_branch),
            git_origin_url: clone_opt_string(&self.git_origin_url),
        }
    }
}

// ---------------------------------------------------------------------------
// Merging with the stored record
// ---------------------------------------------------------------------------

/// `new` where it is given, else `old`.
pub open spec fn prefer_some(old: Option<Seq<char>>, new: Option<Seq<char>>) -> Option<Seq<char>> {
    if new is Some {
        new
    } else {
        old
    }
}

/// Whether a title was chosen for the thread rather than taken from its first
/// message: it is not blank, and it is not the (trimmed) first message.
pub open spec fn explicit_title(title: Seq<char>, first_user_message: Option<Seq<char>>) -> bool {
    let t = trim_seq(title);
    &&& t.len() > 0
    &&& !(first_user_message matches Some(f) && trim_seq(f) == t)
}

fn opt_trim_is(o: &Option<String>, t: &str) -> (r: bool)
    ensures
        r == (opt_view(*o) matches Some(f) && trim_seq(f) == t@),
{
    match o {
        Some(f) => str_eq(trim(f.as_str()), t),
        None => false,
    }
}

fn is_explicit_title(title: &str, first_user_message: &Option<String>) -> (r: bool)
    ensures
        r == explicit_title(title@, opt_view(*first_user_message)),
{
    let t = trim(title);
    t.unicode_len() > 0 && !opt_trim_is(first_user_message, t)
}

impl ThreadMetadata {
    /// Keeps the git facts of the stored record where it has them.
    pub fn prefer_existing_git_info(&mut self, existing: &ThreadMetadata)
        ensures
            final(self)@ == (ThreadMetadataView {
                git_sha: prefer_some(old(self)@.git_sha, existing@.git_sha),
                git_branch: prefer_some(old(self)@.git_branch, existing@.git_branch),
                git_origin_url: prefer_some(old(self)@.git_origin_url, existing@.git_origin_url),
                ..old(self)@
            }),
    {
        if existing.git_sha.is_some() {
            self.git_sha = clone_opt_string(&existing.git_sha);
        }
        if existing.git_branch.is_some() {
            self.git_branch = clone_opt_string(&existing.git_branch);
        }
        if existing.git_origin_url.is_some() {
            self.git_origin_url = clone_opt_string(&existing.git_origin_url);
        }
    }

    /// Keeps the stored record's title where it was chosen for the thread and
    /// this record's title was not.
    pub fn prefer_existing_explicit_title(&mut self, existing: &ThreadMetadata)
        ensures
            final(self)@ == (ThreadMetadataView {
                title: if explicit_title(existing@.title, existing@.first_user_message)
                    && !explicit_title(old(self)@.title, old(self)@.first_user_message) {
                    existing@.title
                } else {
                    old(self)@.title
                },
                ..old(self)@
            }),
    {
        if !is_explicit_title(existing.title.as_str(), &existing.first_user_message) {
            return;
        }
        if !is_explicit_title(self.title.as_str(), &self.first_user_message) {
            self.title = clone_string(&existing.title);
        }
    }
}

// ---------------------------------------------------------------------------
// Which fields differ
// ---------------------------------------------------------------------------

pub open spec fn push_if(s: Seq<Seq<char>>, c: bool, name: Seq<char>) -> Seq<Seq<char>> {
    if c {
        s.push(name)
    } else {
        s
    }
}

pub open spec fn strs_view(v: Seq<&str>) -> Seq<Seq<char>> {
    v.map_values(|s: &str| s@)
}

/// The first eight fields in which `a` and `b` differ, after `d`.
pub open spec fn diff_ids(d: Seq<Seq<char>>, a: ThreadMetadataView, b: ThreadMetadataView) -> Seq<Seq<char>> {
    let d = push_if(d, a.id != b.id, "id"@);
    let d = push_if(d, !same_path(a.rollout_path, b.rollout_path), "rollout_path"@);
    let d = push_if(d, a.created_at != b.created_at, "created_at"@);
    let d = push_if(d, a.updated_at != b.updated_at, "updated_at"@);
    let d = push_if(d, a.source != b.source, "source"@);
    let d = push_if(d, a.thread_source != b.thread_source, "thread_source"@);
    let d = push_if(d, a.agent_nickname != b.agent_nickname, "agent_nickname"@);
    push_if(d, a.agent_role != b.agent_role, "agent_role"@)
}

/// The next eight fields in which `a` and `b` differ, after `d`.
pub open spec fn diff_settings(d: Seq<Seq<char>>, a: ThreadMetadataView, b: ThreadMetadataView) -> Seq<Seq<char>> {
    let d = push_if(d, a.agent_path != b.agent_path, "agent_path"@);
    let d = push_if(d, a.model_provider != b.model_provider, "model_provider"@);
    let d = push_if(d, a.model != b.model, "model"@);
    let d = push_if(d, a.reasoning_effort != b.reasoning_effort, "reasoning_effort"@);
    let d = push_if(d, !same_path(a.cwd, b.cwd), "cwd"@);
    let d = push_if(d, a.cli_version != b.cli_version, "cli_version"@);
    let d = push_if(d, a.title != b.title, "title"@);
    push_if(d, a.preview != b.preview, "preview"@)
}

/// The last eight fields in which `a` and `b` differ, after `d`.
pub open spec fn diff_history(d: Seq<Seq<char>>, a: ThreadMetadataView, b: ThreadMetadataView) -> Seq<Seq<char>> {
    let d = push_if(d, a.sandbox_policy != b.sandbox_policy, "sandbox_policy"@);
    let d = push_if(d, a.approval_mode != b.approval_mode, "approval_mode"@);
    let d = push_if(d, a.tokens_used != b.tokens_used, "tokens_used"@);
    let d = push_if(d, a.first_user_message != b.first_user_message, "first_user_message"@);
    let d = push_if(d, a.archived_at != b.archived_at, "archived_at"@);
    let d = push_if(d, a.git_sha != b.git_sha, "git_sha"@);
    let d = push_if(d, a.git_branch != b.git_branch, "git_branch"@);
    push_if(d, a.git_origin_url != b.git_origin_url, "git_origin_url"@)
}

/// Whether `a` and `b` agree on every field, paths compared as
/// `std::path::Path` compares them.
pub open spec fn fields_agree(a: ThreadMetadataView, b: ThreadMetadataView) -> bool {
    &&& a.id == b.id
    &&& same_path(a.rollout_path, b.rollout_path)
    &&& a.created_at == b.created_at
    &&& a.updated_at == b.updated_at
    &&& a.source == b.source
    &&& a.thread_source == b.thread_source
    &&& a.agent_nickname == b.agent_nickname
    &&& a.agent_role == b.agent_role
    &&& a.agent_path == b.agent_path
    &&& a.model_provider == b.model_provider
    &&& a.model == b.model
    &&& a.reasoning_effort == b.reasoning_effort
    &&& same_path(a.cwd, b.cwd)
    &&& a.cli_version == b.cli_version
    &&& a.title == b.title
    &&& a.preview == b.preview
    &&& a.sandbox_policy == b.sandbox_policy
    &&& a.approval_mode == b.approval_mode
    &&& a.tokens_used == b.tokens_used
    &&& a.first_user_message == b.first_user_message
    &&& a.archived_at == b.archived_at
    &&& a.git_sha == b.git_sha
    &&& a.git_branch == b.git_branch
    &&& a.git_origin_url == b.git_origin_url
}

pub open spec fn flag(c: bool) -> int {
    if c {
        1
    } else {
        0
    }
}

broadcast proof fn lemma_push_if_len(s: Seq<Seq<char>>, c: bool, n: Seq<char>)
    ensures
        #[trigger] push_if(s, c, n).len() == s.len() + flag(c),
{
}

proof fn lemma_diff_ids_len(d: Seq<Seq<char>>, a: ThreadMetadataView, b: ThreadMetadataView)
    ensures
        diff_ids(d, a, b).len() == d.len() + flag(a.id != b.id) + flag(!same_path(a.rollout_path, b.rollout_path))
            + flag(a.created_at != b.created_at) + flag(a.updated_at != b.updated_at) + flag(a.source != b.source)
            + flag(a.thread_source != b.thread_source) + flag(a.agent_nickname != b.agent_nickname)
            + flag(a.agent_role != b.agent_role),
{
    broadcast use lemma_push_if_len;
}

proof fn lemma_diff_settings_len(d: Seq<Seq<char>>, a: ThreadMetadataView, b: ThreadMetadataView)
    ensures
        diff_settings(d, a, b).len() == d.len() + flag(a.agent_path != b.agent_path) + flag(
            a.model_provider != b.model_provider,
        ) + flag(a.model != b.model) + flag(a.reasoning_effort != b.reasoning_effort) + flag(
            !same_path(a.cwd, b.cwd),
        ) + flag(a.cli_version != b.cli_version) + flag(a.title != b.title) + flag(a.preview != b.preview),
{
    broadcast use lemma_push_if_len;
}

proof fn lemma_diff_history_len(d: Seq<Seq<char>>, a: ThreadMetadataView, b: ThreadMetadataView)
    ensures
        diff_history(d, a, b).len() == d.len() + flag(a.sandbox_policy != b.sandbox_policy) + flag(
            a.approval_mode != b.approval_mode,
        ) + flag(a.tokens_used != b.tokens_used) + flag(a.first_user_message != b.first_user_message)
            + flag(a.archived_at != b.archived_at) + flag(a.git_sha != b.git_sha) + flag(
            a.git_branch != b.git_branch,
        ) + flag(a.git_origin_url != b.git_origin_url),
{
    broadcast use lemma_push_if_len;
}

/// The names of the fields in which `a` and `b` differ, in declaration order.
/// Paths differ where `==` on `std::path::Path` says they do.
pub open spec fn diff_names(a: ThreadMetadataView, b: ThreadMetadataView) -> Seq<Seq<char>> {
    diff_history(diff_settings(diff_ids(Seq::empty(), a, b), a, b), a, b)
}

fn push_name(v: &mut Vec<&'static str>, c: bool, name: &'static str)
    ensures
        strs_view(final(v)@) == push_if(strs_view(old(v)@), c, name@),
{
    if c {
        v.push(name);
        assert(strs_view(v@) =~= strs_view(old(v)@).push(name@));
    }
}

fn opt_eq(a: &Option<String>, b: &Option<String>) -> (r: bool)
    ensures
        r == (opt_view(*a) == opt_view(*b)),
{
    match (a, b) {
        (Some(x), Some(y)) => str_eq(x.as_str(), y.as_str()),
        (None, None) => true,
        _ => false,
    }
}

fn opt_i64_eq(a: Option<i64>, b: Option<i64>) -> (r: bool)
    ensures
        r == (a == b),
{
    match (a, b) {
        (Some(x), Some(y)) => x == y,
        (None, None) => true,
        _ => false,
    }
}

fn push_diff_ids(d: &mut Vec<&'static str>, a: &ThreadMetadata, b: &ThreadMetadata)
    ensures
        strs_view(final(d)@) == diff_ids(strs_view(old(d)@), a@, b@),
        same_path(a@.rollout_path, b@.rollout_path) == same_path(b@.rollout_path, a@.rollout_path),
        a@.rollout_path == b@.rollout_path ==> same_path(a@.rollout_path, b@.rollout_path),
{
    push_name(d, !str_eq(a.id.as_str(), b.id.as_str()), "id");
    let same_rollout = paths_are_equal(a.rollout_path.as_str(), b.rollout_path.as_str());
    push_name(d, !same_rollout, "rollout_path");
    push_name(d, a.created_at != b.created_at, "created_at");
    push_name(d, a.updated_at != b.updated_at, "updated_at");
    push_name(d, !str_eq(a.source.as_str(), b.source.as_str()), "source");
    push_name(d, !opt_eq(&a.thread_source, &b.thread_source), "thread_source");
    push_name(d, !opt_eq(&a.agent_nickname, &b.agent_nickname), "agent_nickname");
    push_name(d, !opt_eq(&a.agent_role, &b.agent_role), "agent_role");
}

fn push_diff_settings(d: &mut Vec<&'static str>, a: &ThreadMetadata, b: &ThreadMetadata)
    ensures
        strs_view(final(d)@) == diff_settings(strs_view(old(d)@), a@, b@),
        same_path(a@.cwd, b@.cwd) == same_path(b@.cwd, a@.cwd),
        a@.cwd == b@.cwd ==> same_path(a@.cwd, b@.cwd),
{
    push_name(d, !opt_eq(&a.agent_path, &b.agent_path), "agent_path");
    push_name(d, !str_eq(a.model_provider.as_str(), b.model_provider.as_str()), "model_provider");
    push_name(d, !opt_eq(&a.model, &b.model), "model");
    push_name(d, !opt_eq(&a.reasoning_effort, &b.reasoning_effort), "reasoning_effort");
    let same_cwd = paths_are_equal(a.cwd.as_str(), b.cwd.as_str());
    push_name(d, !same_cwd, "cwd");
    push_name(d, !str_eq(a.cli_version.as_str(), b.cli_version.as_str()), "cli_version");
    push_name(d, !str_eq(a.title.as_str(), b.title.as_str()), "title");
    push_name(d, !opt_eq(&a.preview, &b.preview), "preview");
}

fn push_diff_history(d: &mut Vec<&'static str>, a: &ThreadMetadata, b: &ThreadMetadata)
    ensures
        strs_view(final(d)@) == diff_history(strs_view(old(d)@), a@, b@),
{
    push_name(d, !str_eq(a.sandbox_policy.as_str(), b.sandbox_policy.as_str()), "sandbox_policy");
    push_name(d, !str_eq(a.approval_mode.as_str(), b.approval_mode.as_str()), "approval_mode");
    push_name(d, a.tokens_used != b.tokens_used, "tokens_used");
    push_name(d, !opt_eq(&a.first_user_message, &b.first_user_message), "first_user_message");
    push_name(d, !opt_i64_eq(a.archived_at, b.archived_at), "archived_at");
    push_name(d, !opt_eq(&a.git_sha, &b.git_sha), "git_sha");
    push_name(d, !opt_eq(&a.git_branch, &b.git_branch), "git_branch");
    push_name(d, !opt_eq(&a.git_origin_url, &b.git_origin_url), "git_origin_url");
}

impl ThreadMetadata {
    /// The names of the fields in which `self` and `other` differ. No field
    /// is named exactly when the two agree on every field; a record differs
    /// from nothing when compared with itself; and the fields named do not
    /// depend on which record comes first.
    pub fn diff_fields(&self, other: &ThreadMetadata) -> (r: Vec<&'static str>)
        ensures
            strs_view(r@) == diff_names(self@, other@),
            r@.len() == 0 <==> fields_agree(self@, other@),
            self@ == other@ ==> r@.len() == 0,
            diff_names(self@, other@) == diff_names(other@, self@),
    {
        let mut d: Vec<&'static str> = Vec::new();
        assert(strs_view(d@) =~= Seq::<Seq<char>>::empty());
        push_diff_ids(&mut d, self, other);
        push_diff_settings(&mut d, self, other);
        push_diff_history(&mut d, self, other);
        proof {
            let a = self@;
            let b = other@;
            let e = Seq::<Seq<char>>::empty();
            lemma_diff_ids_len(e, a, b);
            lemma_diff_settings_len(diff_ids(e, a, b), a, b);
            lemma_diff_history_len(diff_settings(diff_ids(e, a, b), a, b), a, b);
            assert(strs_view(d@).len() == d@.len());
            assert(diff_ids(e, a, b) == diff_ids(e, b, a));
            assert(diff_settings(diff_ids(e, a, b), a, b) == diff_settings(diff_ids(e, b, a), b, a));
        }
        d
    }
}

// ---------------------------------------------------------------------------
// Building a record
// ---------------------------------------------------------------------------

/// What the metadata reads of a session source: the text it serialises to,
/// and the agent path it names, if any.
#[derive(Debug)]
pub struct SessionSourceInfo {
    pub name: String,
    pub agent_path: Option<String>,
}

/// The facts known of a thread before its rollout is read.
#[derive(Debug)]
pub struct ThreadMetadataBuilder {
    pub id: String,
    pub rollout_path: String,
    pub created_at: i64,
    pub updated_at: Option<i64>,
    pub source: SessionSourceInfo,
    pub thread_source: Option<String>,
    pub agent_nickname: Option<String>,
    pub agent_role: Option<String>,
    pub agent_path: Option<String>,
    pub model_provider: Option<String>,
    pub cwd: String,
    pub cli_version: Option<String>,
    pub sandbox_policy: String,
    pub approval_mode: String,
    pub archived_at: Option<i64>,
    pub git_sha: Option<String>,
    pub git_branch: Option<String>,
    pub git_origin_url: Option<String>,
}

pub open spec fn opt_or(o: Option<Seq<char>>, d: Seq<char>) -> Seq<char> {
    match o {
        Some(v) => v,
        None => d,
    }
}

/// The record that `build` makes of `b`, with `default_provider` where `b`
/// names no provider.
pub open spec fn built(b: ThreadMetadataBuilder, default_provider: Seq<char>) -> ThreadMetadataView {
    ThreadMetadataView {
        id: b.id@,
        rollout_path: b.rollout_path@,
        created_at: b.created_at,
        updated_at: match b.updated_at {
            Some(u) => u,
            None => b.created_at,
        },
        source: b.source.name@,
        thread_source: opt_view(b.thread_source),
        agent_nickname: opt_view(b.agent_nickname),
        agent_role: opt_view(b.agent_role),
        agent_path: prefer_some(opt_view(b.source.agent_path), opt_view(b.agent_path)),
        model_provider: opt_or(opt_view(b.model_provider), default_provider),
        model: None,
        reasoning_effort: None,
        cwd: b.cwd@,
        cli_version: opt_or(opt_view(b.cli_version), Seq::empty()),
        title: Seq::empty(),
        preview: None,
        sandbox_policy: b.sandbox_policy@,
        approval_mode: b.approval_mode@,
        tokens_used: 0,
        first_user_message: None,
        archived_at: b.archived_at,
        git_sha: opt_view(b.git_sha),
        git_branch: opt_view(b.git_branch),
        git_origin_url: opt_view(b.git_origin_url),
    }
}

fn string_or(o: &Option<String>, d: &str) -> (r: String)
    ensures
        r@ == opt_or(opt_view(*o), d@),
{
    match o {
        Some(v) => clone_string(v),
        None => crate::text::owned(d),
    }
}

impl ThreadMetadataBuilder {
    /// A builder with nothing known but the thread's id, rollout, creation
    /// time and source. `sandbox_policy` and `approval_mode` are the texts of
    /// the read-only policy and of on-request approval, which it starts with.
    pub fn new(
        id: String,
        rollout_path: String,
        created_at: i64,
        source: SessionSourceInfo,
        sandbox_policy: String,
        approval_mode: String,
    ) -> (b: ThreadMetadataBuilder)
        ensures
            b.id@ == id@,
            b.rollout_path@ == rollout_path@,
            b.created_at == created_at,
            b.updated_at is None,
            b.source.name@ == source.name@,
            opt_view(b.source.agent_path) == opt_view(source.agent_path),
            b.thread_source is None,
            b.agent_nickname is None,
            b.agent_role is None,
            b.agent_path is None,
            b.model_provider is None,
            b.cwd@.len() == 0,
            b.cli_version is None,
            b.sandbox_policy@ == sandbox_policy@,
            b.approval_mode@ == approval_mode@,
            b.archived_at is None,
            b.git_sha is None,
            b.git_branch is None,
            b.git_origin_url is None,
    {
        ThreadMetadataBuilder {
            id,
            rollout_path,
            created_at,
            updated_at: None,
            source,
            thread_source: None,
            agent_nickname: None,
            agent_role: None,
            agent_path: None,
            model_provider: None,
            cwd: String::new(),
            cli_version: None,
            sandbox_policy,
            approval_mode,
            archived_at: None,
            git_sha: None,
            git_branch: None,
            git_origin_url: None,
        }
    }

    /// The record of a thread that nothing has been read of yet.
    pub fn build(&self, default_provider: &str) -> (r: ThreadMetadata)
        ensures
            r@ == built(*self, default_provider@),
    {
        let agent_path = if self.agent_path.is_some() {
            clone_opt_string(&self.agent_path)
        } else {
            clone_opt_string(&self.source.agent_path)
        };
        let updated_at = match self.updated_at {
            Some(u) => u,
            None => self.created_at,
        };
        ThreadMetadata {
            id: clone_string(&self.id),
            rollout_path: clone_string(&self.rollout_path),
            created_at: self.created_at,
            updated_at,
            source: clone_string(&self.source.name),
            thread_source: clone_opt_string(&self.thread_source),
            agent_nickname: clone_opt_string(&self.agent_nickname),
            agent_role: clone_opt_string(&self.agent_role),
            agent_path,
            model_provider: string_or(&self.model_provider, default_provider),
            model: None,
            reasoning_effort: None,
            cwd: clone_string(&self.cwd),
            cli_version: match &self.cli_version {
                Some(v) => clone_string(v),
                None => String::new(),
            },
            title: String::new(),
            preview: None,
            sandbox_policy: clone_string(&self.sandbox_policy),
            approval_mode: clone_string(&self.approval_mode),
            tokens_used: 0,
            first_user_message: None,
            archived_at: self.archived_at,
            git_sha: clone_opt_string(&self.git_sha),
            git_branch: clone_opt_string(&self.git_branch),
            git_origin_url: clone_opt_string(&self.git_origin_url),
        }
    }
}

// ---------------------------------------------------------------------------
// Reading a rollout into the record
// ---------------------------------------------------------------------------

/// The marker after which a user message holds what the user typed.
pub const USER_MESSAGE_BEGIN: &'static str = "## My request for Codex:";

/// What a preview shows of a message that holds only images.
pub const IMAGE_ONLY_USER_MESSAGE_PLACEHOLDER: &'static str = "[Image]";

/// The git facts of a session.
#[derive(Debug)]
pub struct GitFacts {
    pub commit_hash: Option<String>,
    pub branch: Option<String>,
    pub repository_url: Option<String>,
}

/// What the metadata reads of a session's meta line.
#[derive(Debug)]
pub struct SessionMetaFacts {
    pub id: String,
    pub source: String,
    pub thread_source: Option<String>,
    pub agent_nickname: Option<String>,
    pub agent_role: Option<String>,
    pub agent_path: Option<String>,
    pub model_provider: Option<String>,
    pub cli_version: String,
    pub cwd: String,
    pub git: Option<GitFacts>,
}

/// What the metadata reads of a turn's context: `permission_profile` is the
/// JSON text of the turn's permission profile.
#[derive(Debug)]
pub struct TurnContextFacts {
    pub cwd: String,
    pub model: String,
    pub effort: Option<String>,
    pub permission_profile: String,
    pub approval_policy: String,
}

/// What the metadata reads of a user message: its text, and whether it
/// carries images.
#[derive(Debug)]
pub struct UserMessageFacts {
    pub message: String,
    pub has_images: bool,
}

/// One line of a rollout, as far as the thread's metadata reads it.
#[derive(Debug)]
pub enum RolloutItem {
    SessionMeta(SessionMetaFacts),
    TurnContext(TurnContextFacts),
    /// A token count; the total tokens where the count carries usage.
    TokenCount(Option<i64>),
    UserMessage(UserMessageFacts),
    /// An update of the thread's goal, with its objective.
    ThreadGoalUpdated(String),
    OtherEvent,
    ResponseItem,
    Compacted,
}

/// The text of a user message after the request marker (or the whole text),
/// trimmed.
pub open spec fn stripped_message(text: Seq<char>) -> Seq<char> {
    match crate::text::after_first_seq(text, USER_MESSAGE_BEGIN@) {
        Some(rest) => trim_seq(rest),
        None => trim_seq(text),
    }
}

pub fn strip_user_message_prefix(text: &str) -> (r: &str)
    ensures
        r@ == stripped_message(text@),
{
    match crate::text::after_first(text, USER_MESSAGE_BEGIN) {
        Some(rest) => trim(rest),
        None => trim(text),
    }
}

/// What a user message shows as a preview: its text, or a placeholder where it
/// holds only images.
pub open spec fn message_preview(message: Seq<char>, has_images: bool) -> Option<Seq<char>> {
    let m = stripped_message(message);
    if m.len() > 0 {
        Some(m)
    } else if has_images {
        Some(IMAGE_ONLY_USER_MESSAGE_PLACEHOLDER@)
    } else {
        None
    }
}

pub fn user_message_preview(user: &UserMessageFacts) -> (r: Option<String>)
    ensures
        opt_view(r) == message_preview(user.message@, user.has_images),
{
    let message = strip_user_message_prefix(user.message.as_str());
    if message.unicode_len() > 0 {
        return Some(crate::text::owned(message));
    }
    if user.has_images {
        return Some(crate::text::owned(IMAGE_ONLY_USER_MESSAGE_PLACEHOLDER));
    }
    None
}

pub open spec fn after_session_meta(m: ThreadMetadataView, f: SessionMetaFacts) -> ThreadMetadataView {
    if m.id != f.id@ {
        m
    } else {
        ThreadMetadataView {
            source: f.source@,
            thread_source: opt_view(f.thread_source),
            agent_nickname: opt_view(f.agent_nickname),
            agent_role: opt_view(f.agent_role),
            agent_path: opt_view(f.agent_path),
            model_provider: opt_or(opt_view(f.model_provider), m.model_provider),
            cli_version: if f.cli_version@.len() > 0 {
                f.cli_version@
            } else {
                m.cli_version
            },
            cwd: if f.cwd@.len() > 0 {
                f.cwd@
            } else {
                m.cwd
            },
            git_sha: match f.git {
                Some(g) => opt_view(g.commit_hash),
                None => m.git_sha,
            },
            git_branch: match f.git {
                Some(g) => opt_view(g.branch),
                None => m.git_branch,
            },
            git_origin_url: match f.git {
                Some(g) => opt_view(g.repository_url),
                None => m.git_origin_url,
            },
            ..m
        }
    }
}

pub open spec fn after_turn_context(m: ThreadMetadataView, t: TurnContextFacts) -> ThreadMetadataView {
    ThreadMetadataView {
        cwd: if m.cwd.len() == 0 {
            t.cwd@
        } else {
            m.cwd
        },
        model: Some(t.model@),
        reasoning_effort: opt_view(t.effort),
        sandbox_policy: t.permission_profile@,
        approval_mode: t.approval_policy@,
        ..m
    }
}

pub open spec fn after_user_message(m: ThreadMetadataView, u: UserMessageFacts) -> ThreadMetadataView {
    let preview = message_preview(u.message@, u.has_images);
    let title = stripped_message(u.message@);
    ThreadMetadataView {
        first_user_message: if m.first_user_message is None {
            preview
        } else {
            m.first_user_message
        },
        preview: if m.preview is None {
            preview
        } else {
            m.preview
        },
        title: if m.title.len() == 0 && title.len() > 0 {
            title
        } else {
            m.title
        },
        ..m
    }
}

pub open spec fn after_item_body(m: ThreadMetadataView, item: RolloutItem) -> ThreadMetadataView {
    match item {
        RolloutItem::SessionMeta(f) => after_session_meta(m, f),
        RolloutItem::TurnContext(t) => after_turn_context(m, t),
        RolloutItem::TokenCount(Some(total)) => ThreadMetadataView {
            tokens_used: if total < 0 {
                0
            } else {
                total
            },
            ..m
        },
        RolloutItem::UserMessage(u) => after_user_message(m, u),
        RolloutItem::ThreadGoalUpdated(objective) => {
            let o = trim_seq(objective@);
            if o.len() > 0 && m.preview is None {
                ThreadMetadataView { preview: Some(o), ..m }
            } else {
                m
            }
        },
        _ => m,
    }
}

/// The record after reading `item`, with `default_provider` where it names
/// no provider.
pub open spec fn after_item(m: ThreadMetadataView, item: RolloutItem, default_provider: Seq<char>) -> ThreadMetadataView {
    let n = after_item_body(m, item);
    if n.model_provider.len() == 0 {
        ThreadMetadataView { model_provider: default_provider, ..n }
    } else {
        n
    }
}

fn apply_session_meta(metadata: &mut ThreadMetadata, f: &SessionMetaFacts)
    ensures
        final(metadata)@ == after_session_meta(old(metadata)@, *f),
{
    if !str_eq(metadata.id.as_str(), f.id.as_str()) {
        return;
    }
    metadata.source = clone_string(&f.source);
    metadata.thread_source = clone_opt_string(&f.thread_source);
    metadata.agent_nickname = clone_opt_string(&f.agent_nickname);
    metadata.agent_role = clone_opt_string(&f.agent_role);
    metadata.agent_path = clone_opt_string(&f.agent_path);
    if let Some(provider) = &f.model_provider {
        metadata.model_provider = clone_string(provider);
    }
    if f.cli_version.unicode_len() > 0 {
        metadata.cli_version = clone_string(&f.cli_version);
    }
    if f.cwd.unicode_len() > 0 {
        metadata.cwd = clone_string(&f.cwd);
    }
    if let Some(git) = &f.git {
        metadata.git_sha = clone_opt_string(&git.commit_hash);
        metadata.git_branch = clone_opt_string(&git.branch);
        metadata.git_origin_url = clone_opt_string(&git.repository_url);
    }
}

fn apply_turn_context(metadata: &mut ThreadMetadata, t: &TurnContextFacts)
    ensures
        final(metadata)@ == after_turn_context(old(metadata)@, *t),
{
    if metadata.cwd.unicode_len() == 0 {
        metadata.cwd = clone_string(&t.cwd);
    }
    metadata.model = Some(clone_string(&t.model));
    metadata.reasoning_effort = clone_opt_string(&t.effort);
    metadata.sandbox_policy = clone_string(&t.permission_profile);
    metadata.approval_mode = clone_string(&t.approval_policy);
}

fn apply_user_message(metadata: &mut ThreadMetadata, u: &UserMessageFacts)
    ensures
        final(metadata)@ == after_user_message(old(metadata)@, *u),
{
    let preview = user_message_preview(u);
    if metadata.first_user_message.is_none() {
        metadata.first_user_message = clone_opt_string(&preview);
    }
    if metadata.preview.is_none() {
        metadata.preview = preview;
    }
    if metadata.title.unicode_len() == 0 {
        let title = strip_user_message_prefix(u.message.as_str());
        if title.unicode_len() > 0 {
            metadata.title = crate::text::owned(title);
        }
    }
}

/// Reads one rollout line into a thread's record.
pub fn apply_rollout_item(metadata: &mut ThreadMetadata, item: &RolloutItem, default_provider: &str)
    ensures
        final(metadata)@ == after_item(old(metadata)@, *item, default_provider@),
{
    match item {
        RolloutItem::SessionMeta(f) => apply_session_meta(metadata, f),
        RolloutItem::TurnContext(t) => apply_turn_context(metadata, t),
        RolloutItem::TokenCount(total) => {
            if let Some(total) = total {
                metadata.tokens_used = if *total < 0 {
                    0
                } else {
                    *total
                };
            }
        },
        RolloutItem::UserMessage(u) => apply_user_message(metadata, u),
        RolloutItem::ThreadGoalUpdated(objective) => {
            let o = trim(objective.as_str());
            if o.unicode_len() > 0 && metadata.preview.is_none() {
                metadata.preview = Some(crate::text::owned(o));
            }
        },
        RolloutItem::OtherEvent => {},
        RolloutItem::ResponseItem => {},
        RolloutItem::Compacted => {},
    }
    if metadata.model_provider.unicode_len() == 0 {
        metadata.model_provider = crate::text::owned(default_provider);
    }
}

/// Whether reading `item` can change a thread's record.
pub open spec fn affects_metadata(item: RolloutItem) -> bool {
    match item {
        RolloutItem::SessionMeta(_) | RolloutItem::TurnContext(_) | RolloutItem::TokenCount(_)
        | RolloutItem::UserMessage(_) | RolloutItem::ThreadGoalUpdated(_) => true,
        _ => false,
    }
}

pub fn rollout_item_affects_thread_metadata(item: &RolloutItem) -> (r: bool)
    ensures
        r == affects_metadata(*item),
{
    match item {
        RolloutItem::SessionMeta(_) | RolloutItem::TurnContext(_) | RolloutItem::TokenCount(_)
        | RolloutItem::UserMessage(_) | RolloutItem::ThreadGoalUpdated(_) => true,
        _ => false,
    }
}

} // verus!
