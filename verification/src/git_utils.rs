use vstd::prelude::*;

use crate::browser_cli::opt_view;
use crate::state::join_path;
use crate::state::join_path_spec;
use crate::text::insert_sorted;
use crate::text::is_first_index;
use crate::text::next_token;
use crate::text::next_token_seq;
use crate::text::owned;
use crate::text::sorted_strict;
use crate::text::split_once;
use crate::text::starts_with_seq;
use crate::text::str_eq;
use crate::text::string_views;
use crate::text::strip_prefix;
use crate::text::trim;
use crate::text::trim_char_seq;
use crate::text::trim_matches_char;
use crate::text::trim_seq;

verus! {

/// The message of every git operation in the browser build.
pub open spec fn unsupported_git() -> Seq<char> {
    "browser git operations require an almostnode git/process host shim"@
}

#[derive(Debug, Clone)]
pub struct ApplyGitRequest {
    pub cwd: String,
    pub diff: String,
    pub revert: bool,
    pub preflight: bool,
}

#[derive(Debug, Clone)]
pub struct ApplyGitResult {
    pub exit_code: i32,
    pub applied_paths: Vec<String>,
    pub skipped_paths: Vec<String>,
    pub conflicted_paths: Vec<String>,
    pub stdout: String,
    pub stderr: String,
    pub cmd_for_log: String,
}

/// The browser build runs no git.
pub fn apply_git_patch(req: &ApplyGitRequest) -> (r: Result<ApplyGitResult, String>)
    ensures
        r matches Err(m) && m@ == unsupported_git(),
{
    Err(owned("browser git operations require an almostnode git/process host shim"))
}

pub fn stage_paths(git_root: &str, diff: &str) -> (r: Result<(), String>)
    ensures
        r matches Err(m) && m@ == unsupported_git(),
{
    Err(owned("browser git operations require an almostnode git/process host shim"))
}

// ---------------------------------------------------------------------------
// Paths touched by a patch
// ---------------------------------------------------------------------------

/// The lines of a text, split at each newline (a carriage return before it
/// stays with the line).
pub open spec fn lines_seq(s: Seq<char>) -> Seq<Seq<char>>
    decreases s.len(),
{
    if exists|i: int| is_first_index(s, '\n', i) {
        let i = choose|i: int| is_first_index(s, '\n', i);
        seq![s.subrange(0, i)] + lines_seq(s.subrange(i + 1, s.len() as int))
    } else {
        seq![s]
    }
}

/// A path from a `diff --git` header: unquoted, without its `a/` or `b/`
/// side prefix; empty paths and `/dev/null` name no file.
pub open spec fn diff_path_spec(raw: Seq<char>, prefix: Seq<char>) -> Option<Seq<char>> {
    let t = trim_char_seq(trim_seq(raw), '"');
    if starts_with_seq(t, prefix) {
        let p = t.subrange(prefix.len() as int, t.len() as int);
        if p.len() > 0 && p != "/dev/null"@ {
            Some(p)
        } else {
            None
        }
    } else {
        None
    }
}

pub fn normalize_diff_path(raw: &str, prefix: &str) -> (r: Option<String>)
    ensures
        match r {
            Some(p) => diff_path_spec(raw@, prefix@) == Some(p@),
            None => diff_path_spec(raw@, prefix@) is None,
        },
{
    let trimmed = trim_matches_char(trim(raw), '"');
    match strip_prefix(trimmed, prefix) {
        Some(path) => {
            if path.unicode_len() > 0 && !str_eq(path, "/dev/null") {
                Some(owned(path))
            } else {
                None
            }
        },
        None => None,
    }
}

pub open spec fn opt_seq(o: Option<Seq<char>>) -> Seq<Seq<char>> {
    match o {
        Some(p) => seq![p],
        None => Seq::empty(),
    }
}

/// The paths that one line of a patch names: the two sides of a
/// `diff --git` header.
pub open spec fn line_paths(line: Seq<char>) -> Seq<Seq<char>> {
    let l = trim_seq(line);
    if starts_with_seq(l, "diff --git "@) {
        let rest = l.subrange("diff --git "@.len() as int, l.len() as int);
        match next_token_seq(rest) {
            None => Seq::empty(),
            Some((first, after)) => opt_seq(diff_path_spec(first, "a/"@)) + match next_token_seq(
                after,
            ) {
                None => Seq::empty(),
                Some((second, _)) => opt_seq(diff_path_spec(second, "b/"@)),
            },
        }
    } else {
        Seq::empty()
    }
}

pub open spec fn all_paths(lines: Seq<Seq<char>>) -> Seq<Seq<char>>
    decreases lines.len(),
{
    if lines.len() == 0 {
        Seq::empty()
    } else {
        line_paths(lines[0]) + all_paths(lines.drop_first())
    }
}

fn add_line_paths(out: &mut Vec<String>, line: &str)
    requires
        sorted_strict(string_views(old(out)@)),
    ensures
        sorted_strict(string_views(final(out)@)),
        forall|y: Seq<char>|
            #![trigger string_views(final(out)@).contains(y)]
            #![trigger string_views(old(out)@).contains(y)]
            #![trigger line_paths(line@).contains(y)]
            string_views(final(out)@).contains(y) <==> (string_views(old(out)@).contains(y)
                || line_paths(line@).contains(y)),
{
    let l = trim(line);
    let rest = match strip_prefix(l, "diff --git ") {
        Some(r) => r,
        None => {
            return;
        },
    };
    let (first, after) = match next_token(rest) {
        Some(p) => p,
        None => {
            return;
        },
    };
    let ghost p1 = diff_path_spec(first@, "a/"@);
    if let Some(p) = normalize_diff_path(first, "a/") {
        insert_sorted(out, p);
    }
    let ghost mid = string_views(out@);
    assert(forall|y: Seq<char>| mid.contains(y) <==> (string_views(old(out)@).contains(y)
        || opt_seq(p1).contains(y))) by {
        if p1 is Some {
            assert(opt_seq(p1)[0] == p1->0);
        }
    }
    let second = match next_token(after) {
        Some((t, _)) => t,
        None => {
            return;
        },
    };
    let ghost p2 = diff_path_spec(second@, "b/"@);
    if let Some(p) = normalize_diff_path(second, "b/") {
        insert_sorted(out, p);
    }
    assert(forall|y: Seq<char>| string_views(out@).contains(y) <==> (mid.contains(y) || opt_seq(
        p2,
    ).contains(y))) by {
        if p2 is Some {
            assert(opt_seq(p2)[0] == p2->0);
        }
    }
    let ghost both = opt_seq(p1) + opt_seq(p2);
    assert forall|y: Seq<char>| both.contains(y) <==> (opt_seq(p1).contains(y) || opt_seq(
        p2,
    ).contains(y)) by {
        if both.contains(y) {
            let i = choose|i: int| 0 <= i < both.len() && both[i] == y;
            if i < opt_seq(p1).len() {
                assert(opt_seq(p1)[i] == y);
            } else {
                assert(opt_seq(p2)[i - opt_seq(p1).len()] == y);
            }
        }
        if opt_seq(p1).contains(y) {
            let i = choose|i: int| 0 <= i < opt_seq(p1).len() && opt_seq(p1)[i] == y;
            assert(both[i] == y);
        }
        if opt_seq(p2).contains(y) {
            let i = choose|i: int| 0 <= i < opt_seq(p2).len() && opt_seq(p2)[i] == y;
            assert(both[i + opt_seq(p1).len()] == y);
        }
    }
}

/// The files a patch touches: the paths of its `diff --git` headers, each
/// once, in ascending order.
pub fn extract_paths_from_patch(diff_text: &str) -> (r: Vec<String>)
    ensures
        sorted_strict(string_views(r@)),
        forall|y: Seq<char>|
            string_views(r@).contains(y) <==> all_paths(lines_seq(diff_text@)).contains(y),
{
    let mut out: Vec<String> = Vec::new();
    let mut rest: &str = diff_text;
    let ghost total = all_paths(lines_seq(diff_text@));
    loop
        invariant
            sorted_strict(string_views(out@)),
            total == all_paths(lines_seq(diff_text@)),
            forall|y: Seq<char>|
                (string_views(out@).contains(y) || all_paths(lines_seq(rest@)).contains(y))
                    <==> total.contains(y),
        ensures
            sorted_strict(string_views(out@)),
            forall|y: Seq<char>| string_views(out@).contains(y) <==> total.contains(y),
        decreases rest@.len(),
    {
        match split_once(rest, '\n') {
            Some((line, next)) => {
                let ghost ls = lines_seq(rest@);
                assert(ls =~= seq![line@] + lines_seq(next@));
                assert(ls.drop_first() =~= lines_seq(next@));
                assert(all_paths(ls) == line_paths(line@) + all_paths(lines_seq(next@)));
                add_line_paths(&mut out, line);
                assert forall|y: Seq<char>| (string_views(out@).contains(y) || all_paths(
                    lines_seq(next@),
                ).contains(y)) <==> total.contains(y) by {
                    let (a, b) = (line_paths(line@), all_paths(lines_seq(next@)));
                    if (a + b).contains(y) {
                        let i = choose|i: int| 0 <= i < (a + b).len() && (a + b)[i] == y;
                        if i < a.len() {
                            assert(a[i] == y);
                        } else {
                            assert(b[i - a.len()] == y);
                        }
                    }
                    if a.contains(y) {
                        let i = choose|i: int| 0 <= i < a.len() && a[i] == y;
                        assert((a + b)[i] == y);
                    }
                    if b.contains(y) {
                        let i = choose|i: int| 0 <= i < b.len() && b[i] == y;
                        assert((a + b)[i + a.len()] == y);
                    }
                }
                rest = next;
            },
            None => {
                let ghost ls = lines_seq(rest@);
                assert(ls =~= seq![rest@]);
                assert(ls.drop_first() =~= Seq::<Seq<char>>::empty());
                assert(all_paths(ls.drop_first()).len() == 0);
                assert(all_paths(ls) =~= line_paths(rest@));
                let ghost before = string_views(out@);
                add_line_paths(&mut out, rest);
                assert forall|y: Seq<char>| string_views(out@).contains(y) <==> total.contains(y) by {
                    assert(string_views(out@).contains(y) <==> (before.contains(y)
                        || line_paths(rest@).contains(y)));
                    assert((before.contains(y) || all_paths(ls).contains(y)) <==> total.contains(y));
                }
                break;
            },
        }
    }
    out
}

/// The browser build reads no git output.
pub fn parse_git_apply_output(stdout: &str, stderr: &str) -> (r: (Vec<String>, Vec<String>, Vec<String>))
    ensures
        r.0@.len() == 0,
        r.1@.len() == 0,
        r.2@.len() == 0,
{
    (Vec::new(), Vec::new(), Vec::new())
}

// ---------------------------------------------------------------------------
// Baselines and repositories
// ---------------------------------------------------------------------------

#[derive(Debug, Clone, Copy, PartialEq, Eq, Structural)]
pub enum GitBaselineChangeStatus {
    Added,
    Modified,
    Deleted,
}

impl GitBaselineChangeStatus {
    /// The one-letter label of the change.
    pub fn label(self) -> (r: &'static str)
        ensures
            r@ == match self {
                GitBaselineChangeStatus::Added => "A"@,
                GitBaselineChangeStatus::Modified => "M"@,
                GitBaselineChangeStatus::Deleted => "D"@,
            },
    {
        match self {
            GitBaselineChangeStatus::Added => "A",
            GitBaselineChangeStatus::Modified => "M",
            GitBaselineChangeStatus::Deleted => "D",
        }
    }
}

#[derive(Debug, Clone, PartialEq, Eq)]
pub struct GitBaselineChange {
    pub status: GitBaselineChangeStatus,
    pub path: String,
}

#[derive(Debug, Clone, PartialEq, Eq)]
pub struct GitBaselineDiff {
    pub changes: Vec<GitBaselineChange>,
    pub unified_diff: String,
}

impl GitBaselineDiff {
    pub fn has_changes(&self) -> (r: bool)
        ensures
            r == (self.changes@.len() > 0),
    {
        self.changes.len() > 0
    }
}

/// What git work can fail with.
#[derive(Debug)]
pub enum GitToolingError {
    GitCommand { command: String, status: i32, stderr: String },
    NotAGitRepository { path: String },
    NonRelativePath { path: String },
    PathEscapesRepository { path: String },
    UnsupportedInBrowser,
}

pub fn merge_base_with_head(repo_path: &str, branch: &str) -> (r: Result<Option<String>, GitToolingError>)
    ensures
        r matches Err(GitToolingError::UnsupportedInBrowser),
{
    Err(GitToolingError::UnsupportedInBrowser)
}

pub fn create_symlink(source: &str, link_target: &str, destination: &str) -> (r: Result<(), GitToolingError>)
    ensures
        r matches Err(GitToolingError::UnsupportedInBrowser),
{
    Err(GitToolingError::UnsupportedInBrowser)
}

/// The browser build knows no git remotes.
pub fn canonicalize_git_remote_url(url: &str) -> (r: Option<String>)
    ensures
        r is None,
{
    None
}

#[derive(Clone, Debug)]
pub struct CommitLogEntry {
    pub sha: String,
    pub timestamp: i64,
    pub subject: String,
}


// ---------------------------------------------------------------------------
// Finding the repository root
// ---------------------------------------------------------------------------

/// What `std::path::Path::parent` gives for this path: the path without its
/// last component, or `None` for a root or an empty path. It is a function of
/// the text alone.
pub uninterp spec fn path_parent(path: Seq<char>) -> Option<Seq<char>>;

/// `std::path::Path::parent`, read as text (the parent of a `&str` path is
/// again valid UTF-8).
#[verifier::external_body]
fn parent_dir(path: &str) -> (r: Option<String>)
    ensures
        opt_view(r) == path_parent(path@),
{
    match std::path::Path::new(path).parent() {
        Some(p) => Some(p.to_string_lossy().into_owned()),
        None => None,
    }
}

/// Where the search for the enclosing repository stands: found in a
/// directory, to look for `.git` in a directory next, or given up.
#[derive(Debug, Clone, PartialEq, Eq)]
pub enum GitRootStep {
    Found(String),
    Probe(String),
    NotFound,
}

pub open spec fn step_to(step: GitRootStep, next: Option<Seq<char>>) -> bool {
    match next {
        Some(d) => (step matches GitRootStep::Probe(p) && p@ == d),
        None => step is NotFound,
    }
}

/// The first step of the search from `base_dir`: the directory itself, or the
/// directory that holds it where it is not a directory.
pub fn git_root_search_start(base_dir: &str, is_dir: bool) -> (r: GitRootStep)
    ensures
        is_dir ==> (r matches GitRootStep::Probe(p) && p@ == base_dir@),
        !is_dir ==> step_to(r, path_parent(base_dir@)),
{
    if is_dir {
        GitRootStep::Probe(owned(base_dir))
    } else {
        match parent_dir(base_dir) {
            Some(p) => GitRootStep::Probe(p),
            None => GitRootStep::NotFound,
        }
    }
}

/// The path whose existence marks `dir` as a repository root.
pub fn git_marker_path(dir: &str) -> (r: String)
    ensures
        r@ == join_path_spec(dir@, ".git"@),
{
    join_path(dir, ".git")
}

/// The step after looking for `.git` in `dir`: found there, or on to the
/// parent directory, or given up at the top.
pub fn git_root_after_probe(dir: &str, has_git: bool) -> (r: GitRootStep)
    ensures
        has_git ==> (r matches GitRootStep::Found(d) && d@ == dir@),
        !has_git ==> step_to(r, path_parent(dir@)),
{
    if has_git {
        GitRootStep::Found(owned(dir))
    } else {
        match parent_dir(dir) {
            Some(p) => GitRootStep::Probe(p),
            None => GitRootStep::NotFound,
        }
    }
}

} // verus!
