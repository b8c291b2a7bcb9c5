use vstd::prelude::*;

use crate::text::join;
use crate::text::join_seq;
use crate::text::contains_seq;
use crate::text::owned;
use crate::text::split_once;
use crate::text::split_once_seq;
use crate::text::starts_with;
use crate::text::starts_with_seq;
use crate::text::str_eq;
use crate::text::string_views;
use crate::text::strip_prefix;
use crate::text::trim;
use crate::text::trim_seq;

verus! {

// ---------------------------------------------------------------------------
// Data
// ---------------------------------------------------------------------------

/// What the browser host hands to one run of the CLI.
pub struct BrowserRunOptions {
    pub cwd: Option<String>,
    pub stdin: Option<String>,
    pub env: Vec<(String, String)>,
    pub terminal_width: Option<u16>,
    pub terminal_height: Option<u16>,
}

impl Default for BrowserRunOptions {
    fn default() -> (r: BrowserRunOptions)
        ensures
            r.cwd is None,
            r.stdin is None,
            r.env@.len() == 0,
            r.terminal_width is None,
            r.terminal_height is None,
    {
        BrowserRunOptions {
            cwd: None,
            stdin: None,
            env: Vec::new(),
            terminal_width: None,
            terminal_height: None,
        }
    }
}

#[derive(Debug, Clone, PartialEq, Eq)]
pub enum BrowserLoginMethod {
    ChatGpt,
    DeviceCode,
}

#[derive(Debug, Clone, PartialEq, Eq)]
pub struct BrowserLoginRequest {
    pub method: BrowserLoginMethod,
}

/// The request that `codex exec` hands to the browser host bridge.
#[derive(Debug, Clone, PartialEq, Eq)]
pub struct BrowserExecPlan {
    pub prompt: String,
    pub model: String,
    pub instructions: String,
    pub tool_choice: String,
    pub parallel_tool_calls: bool,
    pub store: bool,
    pub stream: bool,
    pub json: bool,
    pub output_last_message_path: Option<String>,
    pub warnings: Vec<String>,
    pub cwd: Option<String>,
    pub apply_patch_grammar: Option<String>,
}

/// What the interactive terminal asks the host to do after a frame.
#[derive(Debug, Clone, PartialEq, Eq)]
pub enum BrowserTuiAction {
    Nothing,
    Shell { command: String },
    Exec { prompt: String },
}

/// One rendered frame of the interactive terminal and its follow-up action.
#[derive(Debug, Clone, PartialEq, Eq)]
pub struct BrowserTuiRunResult {
    pub ansi: String,
    pub action: BrowserTuiAction,
}

#[derive(Debug, Clone, PartialEq, Eq)]
pub struct BrowserRunResult {
    pub stdout: String,
    pub stderr: String,
    pub exit_code: i32,
    pub env: Vec<(String, String)>,
    pub browser_exec: Option<BrowserExecPlan>,
    pub browser_login: Option<BrowserLoginRequest>,
    pub browser_tui: Option<BrowserTuiRunResult>,
}

/// Text assets that the exec plan carries: the base instructions and the
/// apply-patch grammar.
pub struct BrowserExecAssets {
    pub instructions: String,
    pub apply_patch_grammar: String,
}

// ---------------------------------------------------------------------------
// Views
// ---------------------------------------------------------------------------

/// The options of a run, as plain values.
#[verifier::ext_equal]
pub struct OptionsView {
    pub cwd: Option<Seq<char>>,
    pub stdin: Option<Seq<char>>,
    pub env: Seq<(Seq<char>, Seq<char>)>,
    pub terminal_width: Option<u16>,
    pub terminal_height: Option<u16>,
}

impl View for BrowserRunOptions {
    type V = OptionsView;

    open spec fn view(&self) -> OptionsView {
        OptionsView {
            cwd: opt_view(self.cwd),
            stdin: opt_view(self.stdin),
            env: env_view(self.env@),
            terminal_width: self.terminal_width,
            terminal_height: self.terminal_height,
        }
    }
}

pub open spec fn opt_view(o: Option<String>) -> Option<Seq<char>> {
    match o {
        Some(s) => Some(s@),
        None => None,
    }
}

pub open spec fn env_view(env: Seq<(String, String)>) -> Seq<(Seq<char>, Seq<char>)> {
    env.map_values(|p: (String, String)| (p.0@, p.1@))
}

/// The value of the first entry named `key`, searching from index `i` on.
pub open spec fn env_lookup_from(env: Seq<(Seq<char>, Seq<char>)>, key: Seq<char>, i: int) -> Option<
    Seq<char>,
>
    decreases env.len() - i,
{
    if i < 0 || i >= env.len() {
        None
    } else if env[i].0 == key {
        Some(env[i].1)
    } else {
        env_lookup_from(env, key, i + 1)
    }
}

/// The value of the first entry of `env` named `key`.
pub open spec fn env_lookup(env: Seq<(Seq<char>, Seq<char>)>, key: Seq<char>) -> Option<Seq<char>> {
    env_lookup_from(env, key, 0)
}

/// Whether no two entries of `env` share a name, as in an environment read
/// from a map.
pub open spec fn distinct_names(env: Seq<(Seq<char>, Seq<char>)>) -> bool {
    forall|i: int, j: int| 0 <= i < j < env.len() ==> #[trigger] env[i].0 != #[trigger] env[j].0
}

proof fn lemma_env_lookup_from_distinct(env: Seq<(Seq<char>, Seq<char>)>, k: int, i: int)
    requires
        distinct_names(env),
        0 <= i <= k < env.len(),
    ensures
        env_lookup_from(env, env[k].0, i) == Some(env[k].1),
    decreases k - i,
{
    if i < k {
        lemma_env_lookup_from_distinct(env, k, i + 1);
    }
}

/// Where no name repeats, looking a name up finds the one entry with that
/// name, wherever it stands: the environment reads as a map.
pub proof fn lemma_env_lookup_distinct(env: Seq<(Seq<char>, Seq<char>)>, k: int)
    requires
        distinct_names(env),
        0 <= k < env.len(),
    ensures
        env_lookup(env, env[k].0) == Some(env[k].1),
{
    lemma_env_lookup_from_distinct(env, k, 0);
}

/// `r` carries exactly this output and exit code, and nothing else.
pub open spec fn result_is(r: BrowserRunResult, out: Seq<char>, err: Seq<char>, code: i32) -> bool {
    &&& r.stdout@ == out
    &&& r.stderr@ == err
    &&& r.exit_code == code
    &&& r.env@.len() == 0
    &&& r.browser_exec is None
    &&& r.browser_login is None
    &&& r.browser_tui is None
}

/// `r` hands the terminal frame `t` to the host, and nothing else.
pub open spec fn tui_result_is(r: BrowserRunResult, t: BrowserTuiRunResult) -> bool {
    &&& r.stdout@.len() == 0
    &&& r.stderr@.len() == 0
    &&& r.exit_code == 0
    &&& r.env@.len() == 0
    &&& r.browser_exec is None
    &&& r.browser_login is None
    &&& r.browser_tui == Some(t)
}

pub open spec fn stdout_is(r: BrowserRunResult, out: Seq<char>, code: i32) -> bool {
    result_is(r, out, Seq::empty(), code)
}

pub open spec fn stderr_is(r: BrowserRunResult, err: Seq<char>, code: i32) -> bool {
    result_is(r, Seq::empty(), err, code)
}

// ---------------------------------------------------------------------------
// Small helpers
// ---------------------------------------------------------------------------

pub fn cat2(a: &str, b: &str) -> (r: String)
    ensures
        r@ == a@ + b@,
{
    let mut s = String::from_str(a);
    s.append(b);
    s
}

pub fn cat3(a: &str, b: &str, c: &str) -> (r: String)
    ensures
        r@ == a@ + b@ + c@,
{
    let mut s = String::from_str(a);
    s.append(b);
    s.append(c);
    s
}

pub fn clone_string(s: &String) -> (r: String)
    ensures
        r@ == s@,
{
    String::from_str(s.as_str())
}

pub fn clone_opt_string(o: &Option<String>) -> (r: Option<String>)
    ensures
        opt_view(r) == opt_view(*o),
{
    match o {
        Some(s) => Some(clone_string(s)),
        None => None,
    }
}

pub fn clone_strings(v: &Vec<String>) -> (r: Vec<String>)
    ensures
        string_views(r@) == string_views(v@),
{
    let mut out: Vec<String> = Vec::new();
    let mut i: usize = 0;
    while i < v.len()
        invariant
            i <= v.len(),
            out@.len() == i,
            forall|j: int| 0 <= j < i ==> out@[j]@ == v@[j]@,
        decreases v.len() - i,
    {
        let s = clone_string(&v[i]);
        out.push(s);
        i = i + 1;
    }
    assert(string_views(out@) =~= string_views(v@));
    out
}

pub fn clone_env(env: &Vec<(String, String)>) -> (r: Vec<(String, String)>)
    ensures
        env_view(r@) == env_view(env@),
{
    let mut out: Vec<(String, String)> = Vec::new();
    let mut i: usize = 0;
    while i < env.len()
        invariant
            i <= env.len(),
            out@.len() == i,
            forall|j: int| 0 <= j < i ==> out@[j].0@ == env@[j].0@ && out@[j].1@ == env@[j].1@,
        decreases env.len() - i,
    {
        let k = clone_string(&env[i].0);
        let v = clone_string(&env[i].1);
        out.push((k, v));
        i = i + 1;
    }
    assert(env_view(out@) =~= env_view(env@));
    out
}

/// The value of the first entry of `env` named `key`.
pub fn env_value(env: &Vec<(String, String)>, key: &str) -> (r: Option<String>)
    ensures
        opt_view(r) == env_lookup(env_view(env@), key@),
{
    let ghost e = env_view(env@);
    let mut i: usize = 0;
    while i < env.len()
        invariant
            e == env_view(env@),
            i <= env.len(),
            env_lookup(e, key@) == env_lookup_from(e, key@, i as int),
        decreases env.len() - i,
    {
        if str_eq(env[i].0.as_str(), key) {
            return Some(clone_string(&env[i].1));
        }
        i = i + 1;
    }
    None
}

impl BrowserRunResult {
    pub fn stdout(stdout: String, exit_code: i32) -> (r: BrowserRunResult)
        ensures
            stdout_is(r, stdout@, exit_code),
    {
        BrowserRunResult {
            stdout,
            stderr: String::new(),
            exit_code,
            env: Vec::new(),
            browser_exec: None,
            browser_login: None,
            browser_tui: None,
        }
    }

    pub fn stderr(stderr: String, exit_code: i32) -> (r: BrowserRunResult)
        ensures
            stderr_is(r, stderr@, exit_code),
    {
        BrowserRunResult {
            stdout: String::new(),
            stderr,
            exit_code,
            env: Vec::new(),
            browser_exec: None,
            browser_login: None,
            browser_tui: None,
        }
    }

    pub fn with_env(self, env: Vec<(String, String)>) -> (r: BrowserRunResult)
        ensures
            r.stdout == self.stdout,
            r.stderr == self.stderr,
            r.exit_code == self.exit_code,
            r.env == env,
            r.browser_exec == self.browser_exec,
            r.browser_login == self.browser_login,
            r.browser_tui == self.browser_tui,
    {
        let mut r = self;
        r.env = env;
        r
    }

    pub fn browser_exec(plan: BrowserExecPlan) -> (r: BrowserRunResult)
        ensures
            r.stdout@.len() == 0,
            r.stderr@.len() == 0,
            r.exit_code == 0,
            r.env@.len() == 0,
            r.browser_exec == Some(plan),
            r.browser_login is None,
            r.browser_tui is None,
    {
        BrowserRunResult {
            stdout: String::new(),
            stderr: String::new(),
            exit_code: 0,
            env: Vec::new(),
            browser_exec: Some(plan),
            browser_login: None,
            browser_tui: None,
        }
    }

    pub fn browser_login(request: BrowserLoginRequest) -> (r: BrowserRunResult)
        ensures
            r.stdout@.len() == 0,
            r.stderr@.len() == 0,
            r.exit_code == 0,
            r.env@.len() == 0,
            r.browser_exec is None,
            r.browser_login == Some(request),
            r.browser_tui is None,
    {
        BrowserRunResult {
            stdout: String::new(),
            stderr: String::new(),
            exit_code: 0,
            env: Vec::new(),
            browser_exec: None,
            browser_login: Some(request),
            browser_tui: None,
        }
    }

    pub fn browser_tui(result: BrowserTuiRunResult) -> (r: BrowserRunResult)
        ensures
            r.stdout@.len() == 0,
            r.stderr@.len() == 0,
            r.exit_code == 0,
            r.env@.len() == 0,
            r.browser_exec is None,
            r.browser_login is None,
            r.browser_tui == Some(result),
    {
        BrowserRunResult {
            stdout: String::new(),
            stderr: String::new(),
            exit_code: 0,
            env: Vec::new(),
            browser_exec: None,
            browser_login: None,
            browser_tui: Some(result),
        }
    }
}

// ---------------------------------------------------------------------------
// Fixed messages
// ---------------------------------------------------------------------------

pub open spec fn unsupported_message(command: Seq<char>, args: Seq<Seq<char>>) -> Seq<char> {
    let joined = if args.len() == 0 {
        Seq::empty()
    } else {
        " "@ + join_seq(args, " "@)
    };
    "codex "@ + command + joined
        + " is recognized by the browser WASM CLI, but this subcommand still depends on native Codex runtime services.\nRequired browser work: route filesystem, process execution, auth, networking, and app-server/TUI transport through almostnode host bridges.\n"@
}

/// The answer to a subcommand that the browser build recognizes but cannot run.
pub fn unsupported(command: &str, args: Vec<String>) -> (r: BrowserRunResult)
    ensures
        stderr_is(r, unsupported_message(command@, string_views(args@)), 78),
{
    let joined = if args.len() == 0 {
        String::new()
    } else {
        let j = join(&args, " ");
        cat2(" ", j.as_str())
    };
    let msg = cat3(
        "codex ",
        command,
        joined.as_str(),
    );
    let msg = cat2(
        msg.as_str(),
        " is recognized by the browser WASM CLI, but this subcommand still depends on native Codex runtime services.\nRequired browser work: route filesystem, process execution, auth, networking, and app-server/TUI transport through almostnode host bridges.\n",
    );
    BrowserRunResult::stderr(msg, 78)
}

pub open spec fn exec_usage() -> Seq<char> {
    "Usage: codex exec [OPTIONS] [PROMPT]\n"@
}

pub fn render_exec_usage() -> (r: &'static str)
    ensures
        r@ == exec_usage(),
{
    "Usage: codex exec [OPTIONS] [PROMPT]\n"
}

pub open spec fn exec_help() -> Seq<char> {
    exec_usage()
        + "\nRun Codex non-interactively in the browser.\n\nOptions:\n  -m, --model <MODEL>              Model to use. Defaults to gpt-5.5.\n      --json, --experimental-json  Print browser exec events as JSONL.\n  -o, --output-last-message <FILE> Write the final response text to a file.\n      --skip-git-repo-check        Accepted for native CLI compatibility.\n      --ephemeral                  Accepted for native CLI compatibility.\n  -h, --help                       Print help.\n"@
}

pub fn render_exec_help() -> (r: String)
    ensures
        r@ == exec_help(),
{
    cat2(
        render_exec_usage(),
        "\nRun Codex non-interactively in the browser.\n\nOptions:\n  -m, --model <MODEL>              Model to use. Defaults to gpt-5.5.\n      --json, --experimental-json  Print browser exec events as JSONL.\n  -o, --output-last-message <FILE> Write the final response text to a file.\n      --skip-git-repo-check        Accepted for native CLI compatibility.\n      --ephemeral                  Accepted for native CLI compatibility.\n  -h, --help                       Print help.\n",
    )
}

pub open spec fn unsupported_exec_mode_message(mode: Seq<char>) -> Seq<char> {
    "codex exec "@ + mode
        + " is parsed in the browser, but this mode still depends on native Codex runtime services.\nSupported browser slice: one-shot `codex exec [OPTIONS] [PROMPT]` through the browser host bridge.\n"@
}

pub fn unsupported_exec_mode(mode: &str) -> (r: BrowserRunResult)
    ensures
        stderr_is(r, unsupported_exec_mode_message(mode@), 78),
{
    BrowserRunResult::stderr(
        cat3(
            "codex exec ",
            mode,
            " is parsed in the browser, but this mode still depends on native Codex runtime services.\nSupported browser slice: one-shot `codex exec [OPTIONS] [PROMPT]` through the browser host bridge.\n",
        ),
        78,
    )
}

pub open spec fn missing_exec_flag_message(flag: Seq<char>) -> Seq<char> {
    "error: a value is required for '"@ + flag + "'\n\n"@ + exec_usage()
}

pub fn missing_exec_flag_value(flag: &str) -> (r: BrowserRunResult)
    ensures
        stderr_is(r, missing_exec_flag_message(flag@), 2),
{
    let m = cat3("error: a value is required for '", flag, "'\n\n");
    BrowserRunResult::stderr(cat2(m.as_str(), render_exec_usage()), 2)
}

pub open spec fn missing_debug_flag_message(flag: Seq<char>) -> Seq<char> {
    "error: a value is required for '"@ + flag + "'\n"@
}

pub fn missing_debug_flag_value(flag: &str) -> (r: BrowserRunResult)
    ensures
        stderr_is(r, missing_debug_flag_message(flag@), 2),
{
    BrowserRunResult::stderr(cat3("error: a value is required for '", flag, "'\n"), 2)
}

pub open spec fn completion_message(shell: Seq<char>) -> Seq<char> {
    "# codex completion for "@ + shell
        + "\n# The browser WASM CLI can parse completion requests, but full clap completion generation is not bundled yet.\n"@
}

pub fn render_completion_placeholder(shell: String) -> (r: String)
    ensures
        r@ == completion_message(shell@),
{
    cat3(
        "# codex completion for ",
        shell.as_str(),
        "\n# The browser WASM CLI can parse completion requests, but full clap completion generation is not bundled yet.\n",
    )
}

pub open spec fn session_args_spec(session_id: Option<Seq<char>>, last: bool, all: bool) -> Seq<
    Seq<char>,
> {
    let a = match session_id {
        Some(id) => seq![id],
        None => Seq::empty(),
    };
    let b = if last {
        a.push("--last"@)
    } else {
        a
    };
    if all {
        b.push("--all"@)
    } else {
        b
    }
}

/// The arguments of `resume` and `fork`, as they are echoed back.
pub fn session_args(session_id: Option<String>, last: bool, all: bool) -> (r: Vec<String>)
    ensures
        string_views(r@) == session_args_spec(opt_view(session_id), last, all),
{
    let mut args: Vec<String> = Vec::new();
    let ghost a0 = string_views(args@);
    if let Some(id) = session_id {
        args.push(id);
    }
    assert(string_views(args@) =~= match opt_view(session_id) {
        Some(id) => seq![id],
        None => Seq::<Seq<char>>::empty(),
    });
    let ghost a1 = string_views(args@);
    if last {
        args.push(owned("--last"));
        assert(string_views(args@) =~= a1.push("--last"@));
    }
    let ghost a2 = string_views(args@);
    if all {
        args.push(owned("--all"));
        assert(string_views(args@) =~= a2.push("--all"@));
    }
    args
}

// ---------------------------------------------------------------------------
// `codex exec` in the browser
// ---------------------------------------------------------------------------

pub open spec fn default_model() -> Seq<char> {
    "gpt-5.5"@
}

pub open spec fn full_auto_warning() -> Seq<char> {
    "warning: `--full-auto` is deprecated; use `--sandbox workspace-write` instead."@
}

/// What the argument scan of `codex exec` has gathered so far.
#[verifier::ext_equal]
pub struct ExecScan {
    pub json: bool,
    pub model: Option<Seq<char>>,
    pub output: Option<Seq<char>>,
    pub prompt: Seq<Seq<char>>,
    pub warnings: Seq<Seq<char>>,
}

/// Why the argument scan of `codex exec` stopped early.
pub enum ExecStop {
    Help,
    Mode(Seq<char>),
    Missing(Seq<char>),
    Unknown(Seq<char>),
}

/// The outcome of reading the argument at one index.
pub enum ExecStep {
    Continue(int, ExecScan),
    Finish(ExecScan),
    Stop(ExecStop),
}

pub open spec fn exec_scan_start() -> ExecScan {
    ExecScan { json: false, model: None, output: None, prompt: Seq::empty(), warnings: Seq::empty() }
}

impl ExecScan {
    pub open spec fn set_json(self) -> ExecScan {
        ExecScan { json: true, model: self.model, output: self.output, prompt: self.prompt, warnings: self.warnings }
    }

    pub open spec fn set_model(self, m: Seq<char>) -> ExecScan {
        ExecScan { json: self.json, model: Some(m), output: self.output, prompt: self.prompt, warnings: self.warnings }
    }

    pub open spec fn set_output(self, o: Seq<char>) -> ExecScan {
        ExecScan { json: self.json, model: self.model, output: Some(o), prompt: self.prompt, warnings: self.warnings }
    }

    pub open spec fn set_prompt(self, p: Seq<Seq<char>>) -> ExecScan {
        ExecScan { json: self.json, model: self.model, output: self.output, prompt: p, warnings: self.warnings }
    }

    pub open spec fn add_warning(self, w: Seq<char>) -> ExecScan {
        ExecScan { json: self.json, model: self.model, output: self.output, prompt: self.prompt, warnings: self.warnings.push(w) }
    }
}

pub open spec fn is_accepted_exec_flag(a: Seq<char>) -> bool {
    ||| a == "--skip-git-repo-check"@
    ||| a == "--ephemeral"@
    ||| a == "--ignore-user-config"@
    ||| a == "--ignore-rules"@
    ||| a == "--strict-config"@
}

/// What `codex exec` makes of the argument at index `i`.
pub open spec fn exec_step(args: Seq<Seq<char>>, i: int, st: ExecScan) -> ExecStep {
    let a = args[i];
    let has_value = i + 1 < args.len();
    if a == "--"@ {
        ExecStep::Finish(st.set_prompt(st.prompt + args.subrange(i + 1, args.len() as int)))
    } else if a == "--help"@ || a == "-h"@ {
        ExecStep::Stop(ExecStop::Help)
    } else if a == "resume"@ || a == "review"@ {
        ExecStep::Stop(ExecStop::Mode(a))
    } else if is_accepted_exec_flag(a) {
        ExecStep::Continue(i + 1, st)
    } else if a == "--full-auto"@ {
        ExecStep::Continue(i + 1, st.add_warning(full_auto_warning()))
    } else if a == "--json"@ || a == "--experimental-json"@ {
        ExecStep::Continue(i + 1, st.set_json())
    } else if a == "-m"@ || a == "--model"@ {
        if has_value {
            ExecStep::Continue(i + 2, st.set_model(args[i + 1]))
        } else {
            ExecStep::Stop(ExecStop::Missing(a))
        }
    } else if starts_with_seq(a, "--model="@) {
        ExecStep::Continue(i + 1, st.set_model(a.subrange("--model="@.len() as int, a.len() as int)))
    } else if starts_with_seq(a, "-m"@) && a.len() > 2 {
        ExecStep::Continue(i + 1, st.set_model(a.subrange(2, a.len() as int)))
    } else if a == "-o"@ || a == "--output-last-message"@ {
        if has_value {
            ExecStep::Continue(i + 2, st.set_output(args[i + 1]))
        } else {
            ExecStep::Stop(ExecStop::Missing(a))
        }
    } else if starts_with_seq(a, "--output-last-message="@) {
        ExecStep::Continue(
            i + 1,
            st.set_output(a.subrange("--output-last-message="@.len() as int, a.len() as int)),
        )
    } else if starts_with_seq(a, "-o"@) && a.len() > 2 {
        ExecStep::Continue(i + 1, st.set_output(a.subrange(2, a.len() as int)))
    } else if a == "--color"@ {
        if has_value {
            ExecStep::Continue(i + 2, st)
        } else {
            ExecStep::Stop(ExecStop::Missing(a))
        }
    } else if starts_with_seq(a, "--color="@) {
        ExecStep::Continue(i + 1, st)
    } else if a == "--output-schema"@ || starts_with_seq(a, "--output-schema="@) {
        ExecStep::Stop(ExecStop::Mode("--output-schema"@))
    } else if starts_with_seq(a, "-"@) {
        ExecStep::Stop(ExecStop::Unknown(a))
    } else {
        ExecStep::Continue(i + 1, st.set_prompt(st.prompt.push(a)))
    }
}

/// The argument scan of `codex exec` from index `i` on.
pub open spec fn exec_scan(args: Seq<Seq<char>>, i: int, st: ExecScan) -> Result<ExecScan, ExecStop>
    decreases args.len() - i,
{
    if i < 0 || i >= args.len() {
        Ok(st)
    } else {
        match exec_step(args, i, st) {
            ExecStep::Continue(j, next) => if i < j <= args.len() {
                exec_scan(args, j, next)
            } else {
                Ok(next)
            },
            ExecStep::Finish(next) => Ok(next),
            ExecStep::Stop(stop) => Err(stop),
        }
    }
}

pub open spec fn exec_stop_result(r: BrowserRunResult, stop: ExecStop) -> bool {
    match stop {
        ExecStop::Help => stdout_is(r, exec_help(), 0),
        ExecStop::Mode(m) => stderr_is(r, unsupported_exec_mode_message(m), 78),
        ExecStop::Missing(f) => stderr_is(r, missing_exec_flag_message(f), 2),
        ExecStop::Unknown(a) => stderr_is(
            r,
            "error: unsupported browser codex exec option '"@ + a + "'\n\n"@ + exec_usage(),
            2,
        ),
    }
}

pub open spec fn no_exec_prompt_message() -> Seq<char> {
    "error: codex exec requires a prompt or stdin in the browser\n\n"@ + exec_usage()
}

/// The prompt of `codex exec`: the arguments joined by spaces, with standard
/// input appended in a `<stdin>` block; `-` alone reads the prompt from
/// standard input.
pub open spec fn exec_prompt_spec(parts: Seq<Seq<char>>, stdin: Seq<char>) -> Option<Seq<char>> {
    if parts.len() == 1 && parts[0] == "-"@ {
        let t = trim_seq(stdin);
        if t.len() > 0 {
            Some(t)
        } else {
            None
        }
    } else {
        let p = trim_seq(join_seq(parts, " "@));
        let has_stdin = trim_seq(stdin).len() > 0;
        if p.len() > 0 && has_stdin {
            Some(p + "\n\n<stdin>\n"@ + stdin + "\n</stdin>"@)
        } else if p.len() > 0 {
            Some(p)
        } else if has_stdin {
            Some(stdin)
        } else {
            None
        }
    }
}

/// The prompt of `codex exec` loses nothing it is given: unless the prompt
/// is `-` alone, non-blank standard input appears in the prompt verbatim,
/// and non-blank arguments (joined by spaces, trimmed) start it; with both,
/// the arguments come first and standard input follows in a `<stdin>` block.
/// There is a prompt exactly when the arguments or standard input are not
/// blank; `-` alone takes the trimmed standard input as the whole prompt.
pub proof fn law_exec_prompt_keeps_its_inputs(parts: Seq<Seq<char>>, stdin: Seq<char>)
    ensures
        ({
            let dash = parts.len() == 1 && parts[0] == "-"@;
            let args = trim_seq(join_seq(parts, " "@));
            let has_stdin = trim_seq(stdin).len() > 0;
            let r = exec_prompt_spec(parts, stdin);
            &&& dash ==> r == if has_stdin {
                Some(trim_seq(stdin))
            } else {
                None
            }
            &&& !dash ==> (r is Some <==> (args.len() > 0 || has_stdin))
            &&& !dash && has_stdin ==> (r matches Some(x) && contains_seq(x, stdin))
            &&& !dash && args.len() > 0 ==> (r matches Some(x) && x.len() >= args.len() && x.subrange(
                0,
                args.len() as int,
            ) == args)
            &&& !dash && args.len() > 0 && has_stdin ==> r == Some(
                args + "\n\n<stdin>\n"@ + stdin + "\n</stdin>"@,
            )
        }),
{
    let dash = parts.len() == 1 && parts[0] == "-"@;
    let args = trim_seq(join_seq(parts, " "@));
    let has_stdin = trim_seq(stdin).len() > 0;
    if !dash {
        if args.len() > 0 && has_stdin {
            let head = args + "\n\n<stdin>\n"@;
            let x = head + stdin + "\n</stdin>"@;
            let i = head.len() as int;
            assert(x.subrange(i, i + stdin.len()) =~= stdin);
            assert(contains_seq(x, stdin));
            assert(x.subrange(0, args.len() as int) =~= args);
            assert(exec_prompt_spec(parts, stdin) == Some(x));
        } else if has_stdin {
            assert(stdin.subrange(0, 0int + stdin.len()) =~= stdin);
            assert(contains_seq(stdin, stdin));
        } else if args.len() > 0 {
            assert(args.subrange(0, args.len() as int) =~= args);
        }
    }
}

pub fn build_exec_prompt(parts: &Vec<String>, stdin: &str) -> (r: Option<String>)
    ensures
        opt_view(r) == exec_prompt_spec(string_views(parts@), stdin@),
{
    if parts.len() == 1 && str_eq(parts[0].as_str(), "-") {
        let t = trim(stdin);
        if t.unicode_len() > 0 {
            return Some(owned(t));
        }
        return None;
    }
    let joined = join(parts, " ");
    let p = trim(joined.as_str());
    let has_stdin = trim(stdin).unicode_len() > 0;
    if p.unicode_len() > 0 && has_stdin {
        let head = cat3(p, "\n\n<stdin>\n", stdin);
        return Some(cat2(head.as_str(), "\n</stdin>"));
    }
    if p.unicode_len() > 0 {
        return Some(owned(p));
    }
    if has_stdin {
        Some(owned(stdin))
    } else {
        None
    }
}

pub open spec fn strip_toml_seq(v: Seq<char>) -> Seq<char> {
    if v.len() >= 2 && ((v[0] == '"' && v.last() == '"') || (v[0] == '\'' && v.last() == '\'')) {
        v.subrange(1, v.len() - 1)
    } else {
        v
    }
}

/// Removes one pair of matching TOML string quotes around `value`.
pub fn strip_toml_string(value: &str) -> (r: &str)
    ensures
        r@ == strip_toml_seq(value@),
{
    let n = value.unicode_len();
    if n >= 2 {
        let first = value.get_char(0);
        let last = value.get_char(n - 1);
        if (first == '"' && last == '"') || (first == '\'' && last == '\'') {
            return value.substring_char(1, n - 1);
        }
    }
    value
}

/// The `model` set by the first `-c model=...` override, from index `i` on.
pub open spec fn config_model_from(config: Seq<Seq<char>>, i: int) -> Option<Seq<char>>
    decreases config.len() - i,
{
    if i < 0 || i >= config.len() {
        None
    } else {
        match split_once_seq(config[i], '=') {
            Some((key, value)) => if trim_seq(key) == "model"@ {
                Some(strip_toml_seq(trim_seq(value)))
            } else {
                config_model_from(config, i + 1)
            },
            None => config_model_from(config, i + 1),
        }
    }
}

pub open spec fn config_model_spec(config: Seq<Seq<char>>) -> Option<Seq<char>> {
    config_model_from(config, 0)
}

pub fn config_model(config: &Vec<String>) -> (r: Option<String>)
    ensures
        opt_view(r) == config_model_spec(string_views(config@)),
{
    let ghost c = string_views(config@);
    let mut i: usize = 0;
    while i < config.len()
        invariant
            c == string_views(config@),
            i <= config.len(),
            config_model_spec(c) == config_model_from(c, i as int),
        decreases config.len() - i,
    {
        if let Some((key, value)) = split_once(config[i].as_str(), '=') {
            if str_eq(trim(key), "model") {
                return Some(owned(strip_toml_string(trim(value))));
            }
        }
        i = i + 1;
    }
    None
}

/// The model of an exec plan: `--model`, then a `model` config override,
/// then `CODEX_MODEL`, then `OPENAI_MODEL`, then the default.
pub open spec fn exec_model_spec(
    flag: Option<Seq<char>>,
    config: Seq<Seq<char>>,
    env: Seq<(Seq<char>, Seq<char>)>,
) -> Seq<char> {
    match flag {
        Some(m) => m,
        None => match config_model_spec(config) {
            Some(m) => m,
            None => match env_lookup(env, "CODEX_MODEL"@) {
                Some(m) => m,
                None => match env_lookup(env, "OPENAI_MODEL"@) {
                    Some(m) => m,
                    None => default_model(),
                },
            },
        },
    }
}

pub open spec fn stdin_view(options: OptionsView) -> Seq<char> {
    match options.stdin {
        Some(s) => s,
        None => Seq::empty(),
    }
}

pub open spec fn exec_plan_is(
    plan: BrowserExecPlan,
    prompt: Seq<char>,
    st: ExecScan,
    config: Seq<Seq<char>>,
    options: OptionsView,
    cwd: Option<Seq<char>>,
    assets: BrowserExecAssets,
) -> bool {
    &&& plan.prompt@ == prompt
    &&& plan.model@ == exec_model_spec(st.model, config, options.env)
    &&& plan.instructions@ == assets.instructions@
    &&& plan.tool_choice@ == "auto"@
    &&& !plan.parallel_tool_calls
    &&& !plan.store
    &&& plan.stream
    &&& plan.json == st.json
    &&& opt_view(plan.output_last_message_path) == st.output
    &&& string_views(plan.warnings@) == st.warnings
    &&& opt_view(plan.cwd) == (if cwd is Some { cwd } else { options.cwd })
    &&& opt_view(plan.apply_patch_grammar) == Some(assets.apply_patch_grammar@)
}

/// The whole answer of `codex exec` with these arguments.
pub open spec fn exec_outcome(
    r: Result<BrowserExecPlan, BrowserRunResult>,
    args: Seq<Seq<char>>,
    config: Seq<Seq<char>>,
    options: OptionsView,
    cwd: Option<Seq<char>>,
    assets: BrowserExecAssets,
) -> bool {
    match exec_scan(args, 0, exec_scan_start()) {
        Err(stop) => r is Err && exec_stop_result(r->Err_0, stop),
        Ok(st) => match exec_prompt_spec(st.prompt, stdin_view(options)) {
            None => r is Err && stderr_is(r->Err_0, no_exec_prompt_message(), 2),
            Some(p) => r is Ok && exec_plan_is(r->Ok_0, p, st, config, options, cwd, assets),
        },
    }
}

pub open spec fn scan_view(
    json: bool,
    model: Option<String>,
    output: Option<String>,
    prompt: Seq<String>,
    warnings: Seq<String>,
) -> ExecScan {
    ExecScan {
        json,
        model: opt_view(model),
        output: opt_view(output),
        prompt: string_views(prompt),
        warnings: string_views(warnings),
    }
}

/// Appends copies of `args[from..]` to `parts`.
fn extend_from(parts: &mut Vec<String>, args: &Vec<String>, from: usize)
    requires
        from <= args.len(),
    ensures
        string_views(final(parts)@) == string_views(old(parts)@) + string_views(args@).subrange(
            from as int,
            args.len() as int,
        ),
{
    let ghost start = string_views(parts@);
    let mut j: usize = from;
    while j < args.len()
        invariant
            from <= j <= args.len(),
            string_views(parts@) == start + string_views(args@).subrange(from as int, j as int),
        decreases args.len() - j,
    {
        let ghost before = string_views(parts@);
        parts.push(clone_string(&args[j]));
        assert(string_views(parts@) =~= before.push(args@[j as int]@));
        j = j + 1;
        assert(string_views(args@).subrange(from as int, j as int) =~= string_views(args@).subrange(
            from as int,
            j - 1,
        ).push(args@[j - 1]@));
    }
}

/// Reads the arguments of `codex exec` into the plan handed to the browser
/// host, or into the answer that stops it.
pub fn parse_exec_plan(
    args: Vec<String>,
    config: &Vec<String>,
    options: &BrowserRunOptions,
    cwd: Option<String>,
    assets: &BrowserExecAssets,
) -> (r: Result<BrowserExecPlan, BrowserRunResult>)
    ensures
        exec_outcome(r, string_views(args@), string_views(config@), options@, opt_view(cwd), *assets),
{
    let ghost av = string_views(args@);
    let mut json = false;
    let mut model: Option<String> = None;
    let mut output_last_message_path: Option<String> = None;
    let mut prompt_parts: Vec<String> = Vec::new();
    let mut warnings: Vec<String> = Vec::new();
    assert(scan_view(json, model, output_last_message_path, prompt_parts@, warnings@)
        =~= exec_scan_start());

    let mut index: usize = 0;
    let mut finished = false;
    while index < args.len() && !finished
        invariant
            av == string_views(args@),
            index <= args.len(),
            finished ==> exec_scan(av, 0, exec_scan_start()) == Ok::<ExecScan, ExecStop>(
                scan_view(json, model, output_last_message_path, prompt_parts@, warnings@),
            ),
            !finished ==> exec_scan(av, 0, exec_scan_start()) == exec_scan(
                av,
                index as int,
                scan_view(json, model, output_last_message_path, prompt_parts@, warnings@),
            ),
        decreases args.len() - index,
    {
        let ghost st = scan_view(json, model, output_last_message_path, prompt_parts@, warnings@);
        let ghost i = index as int;
        let arg: &str = args[index].as_str();
        assert(arg@ == av[i]);
        let n = arg.unicode_len();
        let has_value = index + 1 < args.len();
        if str_eq(arg, "--") {
            extend_from(&mut prompt_parts, &args, index + 1);
            finished = true;
            index = args.len();
        } else if str_eq(arg, "--help") || str_eq(arg, "-h") {
            return Err(BrowserRunResult::stdout(render_exec_help(), 0));
        } else if str_eq(arg, "resume") || str_eq(arg, "review") {
            return Err(unsupported_exec_mode(arg));
        } else if str_eq(arg, "--skip-git-repo-check") || str_eq(arg, "--ephemeral") || str_eq(
            arg,
            "--ignore-user-config",
        ) || str_eq(arg, "--ignore-rules") || str_eq(arg, "--strict-config") {
            index = index + 1;
        } else if str_eq(arg, "--full-auto") {
            warnings.push(
                owned(
                    "warning: `--full-auto` is deprecated; use `--sandbox workspace-write` instead.",
                ),
            );
            assert(string_views(warnings@) =~= st.warnings.push(full_auto_warning()));
            index = index + 1;
        } else if str_eq(arg, "--json") || str_eq(arg, "--experimental-json") {
            json = true;
            index = index + 1;
        } else if str_eq(arg, "-m") || str_eq(arg, "--model") {
            if !has_value {
                return Err(missing_exec_flag_value(arg));
            }
            model = Some(clone_string(&args[index + 1]));
            index = index + 2;
        } else if let Some(value) = strip_prefix(arg, "--model=") {
            model = Some(owned(value));
            index = index + 1;
        } else if starts_with(arg, "-m") && n > 2 {
            model = Some(owned(arg.substring_char(2, n)));
            index = index + 1;
        } else if str_eq(arg, "-o") || str_eq(arg, "--output-last-message") {
            if !has_value {
                return Err(missing_exec_flag_value(arg));
            }
            output_last_message_path = Some(clone_string(&args[index + 1]));
            index = index + 2;
        } else if let Some(value) = strip_prefix(arg, "--output-last-message=") {
            output_last_message_path = Some(owned(value));
            index = index + 1;
        } else if starts_with(arg, "-o") && n > 2 {
            output_last_message_path = Some(owned(arg.substring_char(2, n)));
            index = index + 1;
        } else if str_eq(arg, "--color") {
            if !has_value {
                return Err(missing_exec_flag_value(arg));
            }
            index = index + 2;
        } else if starts_with(arg, "--color=") {
            index = index + 1;
        } else if str_eq(arg, "--output-schema") || starts_with(arg, "--output-schema=") {
            return Err(unsupported_exec_mode("--output-schema"));
        } else if starts_with(arg, "-") {
            let m = cat3("error: unsupported browser codex exec option '", arg, "'\n\n");
            return Err(BrowserRunResult::stderr(cat2(m.as_str(), render_exec_usage()), 2));
        } else {
            prompt_parts.push(clone_string(&args[index]));
            assert(string_views(prompt_parts@) =~= st.prompt.push(av[i]));
            index = index + 1;
        }
    }

    let stdin: &str = match &options.stdin {
        Some(s) => s.as_str(),
        None => "",
    };
    proof {
        reveal_strlit("");
    }
    let prompt = match build_exec_prompt(&prompt_parts, stdin) {
        Some(p) => p,
        None => {
            let m = cat2(
                "error: codex exec requires a prompt or stdin in the browser\n\n",
                render_exec_usage(),
            );
            return Err(BrowserRunResult::stderr(m, 2));
        },
    };
    let model = match model {
        Some(m) => m,
        None => match config_model(config) {
            Some(m) => m,
            None => match env_value(&options.env, "CODEX_MODEL") {
                Some(m) => m,
                None => match env_value(&options.env, "OPENAI_MODEL") {
                    Some(m) => m,
                    None => owned("gpt-5.5"),
                },
            },
        },
    };
    let cwd = match cwd {
        Some(c) => Some(c),
        None => clone_opt_string(&options.cwd),
    };
    Ok(BrowserExecPlan {
        prompt,
        model,
        instructions: clone_string(&assets.instructions),
        tool_choice: owned("auto"),
        parallel_tool_calls: false,
        store: false,
        stream: true,
        json,
        output_last_message_path,
        warnings,
        cwd,
        apply_patch_grammar: Some(clone_string(&assets.apply_patch_grammar)),
    })
}

} // verus!
