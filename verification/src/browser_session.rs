use vstd::prelude::*;

use crate::browser_cli::cat3;
use crate::browser_cli::clone_env;
use crate::browser_cli::clone_opt_string;
use crate::browser_cli::clone_string;
use crate::browser_cli::env_lookup;
use crate::browser_cli::env_value;
use crate::browser_cli::env_view;
use crate::browser_cli::opt_view;
use crate::browser_cli::stderr_is;
use crate::browser_cli::stdin_view;
use crate::browser_cli::stdout_is;
use crate::browser_cli::tui_result_is;
use crate::browser_cli::BrowserExecAssets;
use crate::browser_cli::BrowserLoginMethod;
use crate::browser_cli::BrowserLoginRequest;
use crate::browser_cli::BrowserRunOptions;
use crate::browser_cli::BrowserRunResult;
use crate::browser_cli::OptionsView;
use crate::browser_cli::exec_plan_is;
use crate::browser_cli::exec_prompt_spec;
use crate::browser_cli::exec_scan;
use crate::browser_cli::exec_scan_start;
use crate::browser_cli::exec_stop_result;
use crate::browser_cli::no_exec_prompt_message;
use crate::browser_cli::parse_exec_plan;
use crate::browser_cli::render_completion_placeholder;
use crate::browser_cli::session_args;
use crate::browser_cli::session_args_spec;
use crate::browser_cli::completion_message;
use crate::browser_cli::unsupported;
use crate::browser_cli::unsupported_message;
use crate::browser_cli::BrowserTuiRunResult;
use crate::browser_tui::append_result_view;
use crate::browser_tui::browser_tui_frame_from_args;
use crate::browser_tui::event_spec;
use crate::browser_tui::event_view;
use crate::browser_tui::frame_is;
use crate::browser_tui::frame_scan;
use crate::browser_tui::frame_scan_start;
use crate::browser_tui::parse_browser_tui_agent_message_args;
use crate::browser_tui::parse_browser_tui_event_args;
use crate::browser_tui::parse_browser_tui_input_arg;
use crate::browser_tui::parse_browser_tui_notification_args;
use crate::browser_tui::parse_browser_tui_plan_update_args;
use crate::browser_tui::parse_browser_tui_required_input_arg;
use crate::browser_tui::parse_browser_tui_result_args;
use crate::browser_tui::plan_update_spec;
use crate::browser_tui::plan_update_view;
use crate::browser_tui::required_input_spec;
use crate::browser_tui::result_spec;
use crate::browser_tui::single_option_scan;
use crate::browser_tui::BrowserTuiAppendResult;
use crate::browser_tui::BrowserTuiEvent;
use crate::browser_tui::BrowserTuiFrameArgs;
use crate::browser_tui::BrowserTuiFrameDefaults;
use crate::browser_tui::BrowserTuiSessionOptions;
use crate::browser_tui::UpdatePlanArgs;
use crate::text::string_views;
use crate::text::owned;
use crate::text::str_eq;
use crate::text::trim;
use crate::text::trim_seq;

verus! {

/// One browser tab's Codex CLI: the credentials that `codex login` stored for
/// the session, and the fixed assets of the build.
pub struct BrowserCodexCliSession {
    auth_source: Option<String>,
    auth_env: Vec<(String, String)>,
    assets: BrowserExecAssets,
    package_version: String,
    frame_defaults: BrowserTuiFrameDefaults,
}

impl BrowserCodexCliSession {
    /// Where the stored credentials came from, if any were stored.
    pub closed spec fn auth_source_view(self) -> Option<Seq<char>> {
        opt_view(self.auth_source)
    }

    /// The environment entries that the stored credentials add to each run.
    pub closed spec fn auth_env_view(self) -> Seq<(Seq<char>, Seq<char>)> {
        env_view(self.auth_env@)
    }

    pub closed spec fn assets_of(self) -> BrowserExecAssets {
        self.assets
    }

    pub closed spec fn package_version_view(self) -> Seq<char> {
        self.package_version@
    }

    pub closed spec fn frame_defaults_of(self) -> BrowserTuiFrameDefaults {
        self.frame_defaults
    }

    /// A session with no stored credentials.
    pub fn new(
        assets: BrowserExecAssets,
        package_version: String,
        frame_defaults: BrowserTuiFrameDefaults,
    ) -> (s: BrowserCodexCliSession)
        ensures
            s.auth_source_view() is None,
            s.auth_env_view().len() == 0,
            s.assets_of() == assets,
            s.package_version_view() == package_version@,
            s.frame_defaults_of() == frame_defaults,
    {
        BrowserCodexCliSession {
            auth_source: None,
            auth_env: Vec::new(),
            assets,
            package_version,
            frame_defaults,
        }
    }
}

// ---------------------------------------------------------------------------
// Session credentials in each run's environment
// ---------------------------------------------------------------------------

/// `env` with each entry of `extra` from index `i` on appended, unless `env`
/// already names it.
pub open spec fn merge_env_from(
    env: Seq<(Seq<char>, Seq<char>)>,
    extra: Seq<(Seq<char>, Seq<char>)>,
    i: int,
) -> Seq<(Seq<char>, Seq<char>)>
    decreases extra.len() - i,
{
    if i < 0 || i >= extra.len() {
        env
    } else {
        let next = if env_lookup(env, extra[i].0) is None {
            env.push(extra[i])
        } else {
            env
        };
        merge_env_from(next, extra, i + 1)
    }
}

pub open spec fn merge_env(
    env: Seq<(Seq<char>, Seq<char>)>,
    extra: Seq<(Seq<char>, Seq<char>)>,
) -> Seq<(Seq<char>, Seq<char>)> {
    merge_env_from(env, extra, 0)
}

/// A run's options once the session credentials are added.
pub open spec fn merged_options(o: OptionsView, extra: Seq<(Seq<char>, Seq<char>)>) -> OptionsView {
    OptionsView { env: merge_env(o.env, extra), ..o }
}

pub proof fn lemma_env_lookup_push(
    env: Seq<(Seq<char>, Seq<char>)>,
    entry: (Seq<char>, Seq<char>),
    key: Seq<char>,
    i: int,
)
    requires
        0 <= i <= env.len(),
    ensures
        env_lookup_from(env.push(entry), key, i) == (if env_lookup_from(env, key, i) is Some {
            env_lookup_from(env, key, i)
        } else if entry.0 == key {
            Some(entry.1)
        } else {
            None
        }),
    decreases env.len() - i,
{
    if i < env.len() {
        lemma_env_lookup_push(env, entry, key, i + 1);
        assert(env.push(entry)[i] == env[i]);
    } else {
        assert(env_lookup_from(env.push(entry), key, i + 1) is None);
    }
}

use crate::browser_cli::env_lookup_from;

impl BrowserCodexCliSession {
    /// The run's options with the session credentials added where the run's
    /// own environment does not set them.
    pub fn options_with_session_auth(&self, options: BrowserRunOptions) -> (r: BrowserRunOptions)
        ensures
            r@ == merged_options(options@, self.auth_env_view()),
    {
        let mut opts = options;
        let ghost extra = env_view(self.auth_env@);
        let ghost start = env_view(opts.env@);
        let mut i: usize = 0;
        while i < self.auth_env.len()
            invariant
                opts.cwd == options.cwd,
                opts.stdin == options.stdin,
                opts.terminal_width == options.terminal_width,
                opts.terminal_height == options.terminal_height,
                start == env_view(options.env@),
                extra == env_view(self.auth_env@),
                i <= self.auth_env.len(),
                merge_env(start, extra) == merge_env_from(env_view(opts.env@), extra, i as int),
            decreases self.auth_env.len() - i,
        {
            let name = &self.auth_env[i].0;
            if env_value(&opts.env, name.as_str()).is_none() {
                let ghost before = env_view(opts.env@);
                let k = clone_string(name);
                let v = clone_string(&self.auth_env[i].1);
                opts.env.push((k, v));
                assert(env_view(opts.env@) =~= before.push(extra[i as int]));
            }
            i = i + 1;
        }
        opts
    }
}

// ---------------------------------------------------------------------------
// `codex login`, `codex login status`, `codex logout`
// ---------------------------------------------------------------------------

/// The flags of `codex login`; `status` is the `login status` subcommand.
pub struct LoginCommand {
    pub with_api_key: bool,
    pub with_access_token: bool,
    pub device_auth: bool,
    pub status: bool,
}

pub open spec fn env_or_empty(options: OptionsView, key: Seq<char>) -> Seq<char> {
    match env_lookup(options.env, key) {
        Some(v) => v,
        None => Seq::empty(),
    }
}

/// The API key that `codex login --with-api-key` stores: trimmed standard
/// input, or else the trimmed `CODEX_API_KEY` (or, if unset, `OPENAI_API_KEY`).
pub open spec fn api_key_input(options: OptionsView) -> Seq<char> {
    let from_stdin = trim_seq(stdin_view(options));
    if from_stdin.len() > 0 {
        from_stdin
    } else {
        trim_seq(
            match env_lookup(options.env, "CODEX_API_KEY"@) {
                Some(v) => v,
                None => env_or_empty(options, "OPENAI_API_KEY"@),
            },
        )
    }
}

/// The access token that `codex login --with-access-token` stores: trimmed
/// standard input, or else the trimmed `CODEX_ACCESS_TOKEN`.
pub open spec fn access_token_input(options: OptionsView) -> Seq<char> {
    let from_stdin = trim_seq(stdin_view(options));
    if from_stdin.len() > 0 {
        from_stdin
    } else {
        trim_seq(env_or_empty(options, "CODEX_ACCESS_TOKEN"@))
    }
}

pub open spec fn api_key_source() -> Seq<char> {
    "stdin api key/browser session"@
}

pub open spec fn access_token_source() -> Seq<char> {
    "stdin access token/browser session"@
}

pub open spec fn stored_result(r: BrowserRunResult, out: Seq<char>, env: Seq<(Seq<char>, Seq<char>)>) -> bool {
    &&& r.stdout@ == out
    &&& r.stderr@.len() == 0
    &&& r.exit_code == 0
    &&& env_view(r.env@) == env
    &&& r.browser_exec is None
    &&& r.browser_login is None
    &&& r.browser_tui is None
}

/// What `codex login status` answers, given the stored source and the run's
/// environment.
pub open spec fn login_status_is(r: BrowserRunResult, source: Option<Seq<char>>, options: OptionsView) -> bool {
    let env = options.env;
    match source {
        Some(s) => stdout_is(r, "Logged in for this browser session via "@ + s + ".\n"@, 0),
        None => if env_lookup(env, "CODEX_ACCESS_TOKEN"@) is Some {
            stdout_is(r, "Logged in for this browser session via CODEX_ACCESS_TOKEN.\n"@, 0)
        } else if env_lookup(env, "CODEX_API_KEY"@) is Some {
            stdout_is(r, "Logged in for this browser session via CODEX_API_KEY.\n"@, 0)
        } else if env_lookup(env, "OPENAI_API_KEY"@) is Some {
            stdout_is(r, "Logged in for this browser session via OPENAI_API_KEY.\n"@, 0)
        } else {
            stderr_is(
                r,
                "Not logged in. Set CODEX_API_KEY, OPENAI_API_KEY, or CODEX_ACCESS_TOKEN in the browser shell environment.\n"@,
                1,
            )
        },
    }
}

pub open spec fn device_login_is(r: BrowserRunResult) -> bool {
    &&& r.stdout@.len() == 0
    &&& r.stderr@.len() == 0
    &&& r.exit_code == 0
    &&& r.env@.len() == 0
    &&& r.browser_exec is None
    &&& r.browser_login == Some(BrowserLoginRequest { method: BrowserLoginMethod::DeviceCode })
    &&& r.browser_tui is None
}

/// The whole effect of `codex login` with these flags: the answer `r`, and the
/// session before (`s0`) and after (`s1`).
pub open spec fn login_outcome(
    s0: BrowserCodexCliSession,
    s1: BrowserCodexCliSession,
    command: LoginCommand,
    options: OptionsView,
    r: BrowserRunResult,
) -> bool {
    if command.status {
        s1 == s0 && login_status_is(r, s0.auth_source_view(), options)
    } else if command.with_api_key && command.with_access_token {
        s1 == s0 && stderr_is(
            r,
            "Choose one login credential source: --with-api-key or --with-access-token.\n"@,
            1,
        )
    } else if command.with_api_key {
        let key = api_key_input(options);
        if key.len() == 0 {
            s1 == s0 && stderr_is(
                r,
                "codex login --with-api-key in the browser requires an API key on stdin or OPENAI_API_KEY/CODEX_API_KEY in the browser shell environment.\n"@,
                1,
            )
        } else {
            &&& s1.auth_source_view() == Some(api_key_source())
            &&& s1.auth_env_view() == seq![("OPENAI_API_KEY"@, key), ("CODEX_API_KEY"@, key)]
            &&& s1.assets_of() == s0.assets_of()
            &&& s1.package_version_view() == s0.package_version_view()
            &&& s1.frame_defaults_of() == s0.frame_defaults_of()
            &&& stored_result(
                r,
                "Stored OpenAI API key for this browser Codex session.\n"@,
                s1.auth_env_view(),
            )
        }
    } else if command.with_access_token {
        let token = access_token_input(options);
        if token.len() == 0 {
            s1 == s0 && stderr_is(
                r,
                "codex login --with-access-token in the browser requires an access token on stdin or CODEX_ACCESS_TOKEN in the browser shell environment.\n"@,
                1,
            )
        } else {
            &&& s1.auth_source_view() == Some(access_token_source())
            &&& s1.auth_env_view() == seq![("CODEX_ACCESS_TOKEN"@, token)]
            &&& s1.assets_of() == s0.assets_of()
            &&& s1.package_version_view() == s0.package_version_view()
            &&& s1.frame_defaults_of() == s0.frame_defaults_of()
            &&& stored_result(
                r,
                "Stored Codex access token for this browser Codex session.\n"@,
                s1.auth_env_view(),
            )
        }
    } else {
        s1 == s0 && device_login_is(r)
    }
}

/// What `codex logout` does: the stored credentials are gone.
pub open spec fn logout_outcome(s0: BrowserCodexCliSession, s1: BrowserCodexCliSession, r: BrowserRunResult) -> bool {
    &&& s1.auth_source_view() is None
    &&& s1.auth_env_view().len() == 0
    &&& s1.assets_of() == s0.assets_of()
    &&& s1.package_version_view() == s0.package_version_view()
    &&& s1.frame_defaults_of() == s0.frame_defaults_of()
    &&& stdout_is(r, "Cleared browser Codex session credentials.\n"@, 0)
}

/// The trimmed value of `key` in the run's environment, or empty.
fn env_trimmed(options: &BrowserRunOptions, key: &str) -> (r: String)
    ensures
        r@ == trim_seq(env_or_empty(options@, key@)),
{
    match env_value(&options.env, key) {
        Some(v) => owned(trim(v.as_str())),
        None => {
            proof {
                reveal_strlit("");
            }
            owned(trim(""))
        },
    }
}

fn stdin_trimmed(options: &BrowserRunOptions) -> (r: String)
    ensures
        r@ == trim_seq(stdin_view(options@)),
{
    match &options.stdin {
        Some(s) => owned(trim(s.as_str())),
        None => {
            proof {
                reveal_strlit("");
            }
            owned(trim(""))
        },
    }
}

impl BrowserCodexCliSession {
    pub fn run_login(&mut self, command: LoginCommand, options: BrowserRunOptions) -> (r: BrowserRunResult)
        ensures
            login_outcome(*old(self), *final(self), command, options@, r),
    {
        if command.status {
            return self.run_login_status(options);
        }
        if command.with_api_key && command.with_access_token {
            return BrowserRunResult::stderr(
                owned("Choose one login credential source: --with-api-key or --with-access-token.\n"),
                1,
            );
        }
        if command.with_api_key {
            let mut api_key = stdin_trimmed(&options);
            if api_key.as_str().unicode_len() == 0 {
                api_key = match env_value(&options.env, "CODEX_API_KEY") {
                    Some(v) => owned(trim(v.as_str())),
                    None => env_trimmed(&options, "OPENAI_API_KEY"),
                };
            }
            if api_key.as_str().unicode_len() == 0 {
                return BrowserRunResult::stderr(
                    owned(
                        "codex login --with-api-key in the browser requires an API key on stdin or OPENAI_API_KEY/CODEX_API_KEY in the browser shell environment.\n",
                    ),
                    1,
                );
            }
            self.auth_source = Some(owned("stdin api key/browser session"));
            self.auth_env = vec![
                (owned("OPENAI_API_KEY"), clone_string(&api_key)),
                (owned("CODEX_API_KEY"), api_key),
            ];
            assert(env_view(self.auth_env@) =~= seq![
                ("OPENAI_API_KEY"@, api_key_input(options@)),
                ("CODEX_API_KEY"@, api_key_input(options@)),
            ]);
            let r = BrowserRunResult::stdout(
                owned("Stored OpenAI API key for this browser Codex session.\n"),
                0,
            );
            return r.with_env(clone_env(&self.auth_env));
        }
        if command.with_access_token {
            let mut token = stdin_trimmed(&options);
            if token.as_str().unicode_len() == 0 {
                token = env_trimmed(&options, "CODEX_ACCESS_TOKEN");
            }
            if token.as_str().unicode_len() == 0 {
                return BrowserRunResult::stderr(
                    owned(
                        "codex login --with-access-token in the browser requires an access token on stdin or CODEX_ACCESS_TOKEN in the browser shell environment.\n",
                    ),
                    1,
                );
            }
            self.auth_source = Some(owned("stdin access token/browser session"));
            self.auth_env = vec![(owned("CODEX_ACCESS_TOKEN"), token)];
            assert(env_view(self.auth_env@) =~= seq![
                ("CODEX_ACCESS_TOKEN"@, access_token_input(options@)),
            ]);
            let r = BrowserRunResult::stdout(
                owned("Stored Codex access token for this browser Codex session.\n"),
                0,
            );
            return r.with_env(clone_env(&self.auth_env));
        }
        BrowserRunResult::browser_login(BrowserLoginRequest { method: BrowserLoginMethod::DeviceCode })
    }

    pub fn run_login_status(&self, options: BrowserRunOptions) -> (r: BrowserRunResult)
        ensures
            login_status_is(r, self.auth_source_view(), options@),
    {
        if let Some(source) = &self.auth_source {
            return BrowserRunResult::stdout(
                cat3("Logged in for this browser session via ", source.as_str(), ".\n"),
                0,
            );
        }
        if env_value(&options.env, "CODEX_ACCESS_TOKEN").is_some() {
            return BrowserRunResult::stdout(
                owned("Logged in for this browser session via CODEX_ACCESS_TOKEN.\n"),
                0,
            );
        }
        if env_value(&options.env, "CODEX_API_KEY").is_some() {
            return BrowserRunResult::stdout(
                owned("Logged in for this browser session via CODEX_API_KEY.\n"),
                0,
            );
        }
        if env_value(&options.env, "OPENAI_API_KEY").is_some() {
            return BrowserRunResult::stdout(
                owned("Logged in for this browser session via OPENAI_API_KEY.\n"),
                0,
            );
        }
        BrowserRunResult::stderr(
            owned(
                "Not logged in. Set CODEX_API_KEY, OPENAI_API_KEY, or CODEX_ACCESS_TOKEN in the browser shell environment.\n",
            ),
            1,
        )
    }

    pub fn run_logout(&mut self) -> (r: BrowserRunResult)
        ensures
            logout_outcome(*old(self), *final(self), r),
    {
        self.auth_source = None;
        self.auth_env.clear();
        BrowserRunResult::stdout(owned("Cleared browser Codex session credentials.\n"), 0)
    }
}

// ---------------------------------------------------------------------------
// `codex features` and `codex doctor`
// ---------------------------------------------------------------------------

pub enum FeaturesSubcommand {
    List,
    Enable(String),
    Disable(String),
}

pub open spec fn feature_list() -> Seq<char> {
    "browser_wasm_cli\tstable\ttrue\nbrowser_exec_bridge\tworker bridge available\ttrue\nbrowser_tui\twasm ratatui frame renderer\ttrue\nbrowser_app_server\tunder development\tfalse\n"@
}

pub open spec fn features_is(r: BrowserRunResult, command: FeaturesSubcommand) -> bool {
    match command {
        FeaturesSubcommand::List => stdout_is(r, feature_list(), 0),
        FeaturesSubcommand::Enable(f) => stdout_is(
            r,
            "Feature `"@ + f@ + "` recorded for this browser command invocation.\n"@,
            0,
        ),
        FeaturesSubcommand::Disable(f) => stdout_is(
            r,
            "Feature `"@ + f@ + "` disabled for this browser command invocation.\n"@,
            0,
        ),
    }
}

pub fn run_features(command: FeaturesSubcommand) -> (r: BrowserRunResult)
    ensures
        features_is(r, command),
{
    match command {
        FeaturesSubcommand::List => BrowserRunResult::stdout(
            owned(
                "browser_wasm_cli\tstable\ttrue\nbrowser_exec_bridge\tworker bridge available\ttrue\nbrowser_tui\twasm ratatui frame renderer\ttrue\nbrowser_app_server\tunder development\tfalse\n",
            ),
            0,
        ),
        FeaturesSubcommand::Enable(feature) => BrowserRunResult::stdout(
            cat3(
                "Feature `",
                feature.as_str(),
                "` recorded for this browser command invocation.\n",
            ),
            0,
        ),
        FeaturesSubcommand::Disable(feature) => BrowserRunResult::stdout(
            cat3(
                "Feature `",
                feature.as_str(),
                "` disabled for this browser command invocation.\n",
            ),
            0,
        ),
    }
}

pub open spec fn doctor_report(cwd: Option<Seq<char>>) -> Seq<char> {
    let base =
        "Codex browser WASM doctor\nwasm module: loaded\nargv parser: available\nbrowser exec bridge: available in the Web Worker host bridge\nbrowser TUI renderer: ratatui wasm frame renderer available\nnative process/socket app-server bridge: unavailable\n"@;
    match cwd {
        Some(c) => base + "cwd: "@ + c + "\n"@,
        None => base,
    }
}

pub fn run_doctor(options: BrowserRunOptions) -> (r: BrowserRunResult)
    ensures
        stdout_is(r, doctor_report(options@.cwd), 0),
{
    let mut stdout = owned(
        "Codex browser WASM doctor\nwasm module: loaded\nargv parser: available\nbrowser exec bridge: available in the Web Worker host bridge\nbrowser TUI renderer: ratatui wasm frame renderer available\nnative process/socket app-server bridge: unavailable\n",
    );
    if let Some(cwd) = &options.cwd {
        stdout.append("cwd: ");
        stdout.append(cwd.as_str());
        stdout.append("\n");
    }
    BrowserRunResult::stdout(stdout, 0)
}

// ---------------------------------------------------------------------------
// What a run asks of the host
// ---------------------------------------------------------------------------

/// A call on the interactive terminal, which the host makes.
pub enum BrowserTuiRequest {
    Start(Option<String>),
    SetInput(String),
    HandleEvent(BrowserTuiEvent),
    Submit,
    AppendResult(BrowserTuiAppendResult),
    AppendAgentMessage(String),
    AppendPlanUpdate(UpdatePlanArgs),
    ApplyServerNotificationJson(String),
}

/// Where a run stands: answered, or waiting for the host to drive the
/// terminal (its reply goes through `browser_tui_result`) or to render a frame
/// (its reply goes through `browser_tui_frame_result`).
pub enum BrowserStep {
    Finished(BrowserRunResult),
    Tui(BrowserTuiRequest, BrowserTuiSessionOptions),
    RenderFrame(BrowserTuiFrameArgs),
}

pub open spec fn tui_options_is(o: BrowserTuiSessionOptions, options: OptionsView) -> bool {
    &&& opt_view(o.cwd) == options.cwd
    &&& env_view(o.env@) == options.env
    &&& o.terminal_width == options.terminal_width
    &&& o.terminal_height == options.terminal_height
}

pub fn browser_tui_options(options: &BrowserRunOptions) -> (r: BrowserTuiSessionOptions)
    ensures
        tui_options_is(r, options@),
{
    BrowserTuiSessionOptions {
        cwd: clone_opt_string(&options.cwd),
        env: clone_env(&options.env),
        terminal_width: options.terminal_width,
        terminal_height: options.terminal_height,
    }
}

/// The answer of a run from the terminal's reply.
pub fn browser_tui_result(result: Result<BrowserTuiRunResult, String>) -> (r: BrowserRunResult)
    ensures
        match result {
            Ok(t) => tui_result_is(r, t),
            Err(m) => stderr_is(r, m@, 1),
        },
{
    match result {
        Ok(t) => BrowserRunResult::browser_tui(t),
        Err(m) => BrowserRunResult::stderr(m, 1),
    }
}

/// The answer of a run from the frame renderer's reply.
pub fn browser_tui_frame_result(rendered: Result<String, String>) -> (r: BrowserRunResult)
    ensures
        match rendered {
            Ok(ansi) => stdout_is(r, ansi@, 0),
            Err(m) => stderr_is(r, m@, 1),
        },
{
    match rendered {
        Ok(ansi) => BrowserRunResult::stdout(ansi, 0),
        Err(m) => BrowserRunResult::stderr(m, 1),
    }
}

pub open spec fn finished_stderr(step: BrowserStep, m: Seq<char>, code: i32) -> bool {
    step matches BrowserStep::Finished(r) && stderr_is(r, m, code)
}

pub open spec fn tui_call_is(step: BrowserStep, options: OptionsView) -> bool {
    step matches BrowserStep::Tui(_, o) && tui_options_is(o, options)
}

/// What `codex debug <args>` asks for.
pub open spec fn debug_outcome(
    step: BrowserStep,
    args: Seq<Seq<char>>,
    options: OptionsView,
    defaults: BrowserTuiFrameDefaults,
) -> bool {
    let rest = args.drop_first();
    let first = if args.len() > 0 {
        args[0]
    } else {
        Seq::empty()
    };
    if args.len() > 0 && first == "browser-tui-frame"@ {
        match frame_scan(rest, 0, frame_scan_start(defaults, options.cwd)) {
            Ok(st) => step matches BrowserStep::RenderFrame(f) && frame_is(f, st),
            Err(m) => finished_stderr(step, m, 2),
        }
    } else if args.len() > 0 && first == "browser-tui-start"@ {
        if rest.len() == 0 {
            (step matches BrowserStep::Tui(
                BrowserTuiRequest::Start(None),
                _,
            )) && tui_call_is(step, options)
        } else {
            match required_input_spec(rest) {
                Ok(v) => (step matches BrowserStep::Tui(
                    BrowserTuiRequest::Start(Some(p)),
                    _,
                ) && p@ == v) && tui_call_is(step, options),
                Err(m) => finished_stderr(step, m, 2),
            }
        }
    } else if args.len() > 0 && first == "browser-tui-input"@ {
        match required_input_spec(rest) {
            Ok(v) => (step matches BrowserStep::Tui(
                BrowserTuiRequest::SetInput(p),
                _,
            ) && p@ == v) && tui_call_is(step, options),
            Err(m) => finished_stderr(step, m, 2),
        }
    } else if args.len() > 0 && first == "browser-tui-event"@ {
        match event_spec(rest) {
            Ok(v) => (step matches BrowserStep::Tui(
                BrowserTuiRequest::HandleEvent(e),
                _,
            ) && event_view(e) == v) && tui_call_is(step, options),
            Err(m) => finished_stderr(step, m, 2),
        }
    } else if args.len() > 0 && first == "browser-tui-submit"@ {
        (step matches BrowserStep::Tui(BrowserTuiRequest::Submit, _)) && tui_call_is(step, options)
    } else if args.len() > 0 && first == "browser-tui-result"@ {
        match result_spec(rest) {
            Ok(v) => (step matches BrowserStep::Tui(
                BrowserTuiRequest::AppendResult(x),
                _,
            ) && append_result_view(x) == v) && tui_call_is(step, options),
            Err(m) => finished_stderr(step, m, 2),
        }
    } else if args.len() > 0 && first == "browser-tui-agent-message"@ {
        match single_option_scan(rest, 0, "--text"@, "agent message"@, None) {
            Ok(v) => (step matches BrowserStep::Tui(
                BrowserTuiRequest::AppendAgentMessage(x),
                _,
            ) && x@ == v) && tui_call_is(step, options),
            Err(m) => finished_stderr(step, m, 2),
        }
    } else if args.len() > 0 && first == "browser-tui-plan-update"@ {
        match plan_update_spec(rest) {
            Ok(v) => (step matches BrowserStep::Tui(
                BrowserTuiRequest::AppendPlanUpdate(u),
                _,
            ) && plan_update_view(u) == v) && tui_call_is(step, options),
            Err(m) => finished_stderr(step, m, 2),
        }
    } else if args.len() > 0 && first == "browser-tui-notification"@ {
        match single_option_scan(rest, 0, "--json"@, "notification"@, None) {
            Ok(v) => (step matches BrowserStep::Tui(
                BrowserTuiRequest::ApplyServerNotificationJson(x),
                _,
            ) && x@ == v) && tui_call_is(step, options),
            Err(m) => finished_stderr(step, m, 2),
        }
    } else {
        finished_stderr(step, unsupported_message("debug"@, args), 78)
    }
}

/// Copies of `args[1..]`.
fn tail_of(args: &Vec<String>) -> (r: Vec<String>)
    requires
        args.len() > 0,
    ensures
        string_views(r@) == string_views(args@).drop_first(),
{
    let mut out: Vec<String> = Vec::new();
    let mut i: usize = 1;
    while i < args.len()
        invariant
            1 <= i <= args.len(),
            out@.len() == i - 1,
            forall|j: int| 0 <= j < i - 1 ==> out@[j]@ == args@[j + 1]@,
        decreases args.len() - i,
    {
        out.push(clone_string(&args[i]));
        i = i + 1;
    }
    assert(string_views(out@) =~= string_views(args@).drop_first());
    out
}

impl BrowserCodexCliSession {
    fn clone_frame_defaults(&self) -> (r: BrowserTuiFrameDefaults)
        ensures
            r.width == self.frame_defaults.width,
            r.height == self.frame_defaults.height,
            opt_view(r.version) == opt_view(self.frame_defaults.version),
            r.model@ == self.frame_defaults.model@,
    {
        BrowserTuiFrameDefaults {
            width: self.frame_defaults.width,
            height: self.frame_defaults.height,
            version: clone_opt_string(&self.frame_defaults.version),
            model: clone_string(&self.frame_defaults.model),
        }
    }

    /// `codex debug`: the terminal debug commands of the browser build.
    pub fn run_debug(&self, args: Vec<String>, options: BrowserRunOptions) -> (step: BrowserStep)
        ensures
            debug_outcome(step, string_views(args@), options@, self.frame_defaults_of()),
    {
        let ghost av = string_views(args@);
        if args.len() == 0 {
            return BrowserStep::Finished(unsupported("debug", args));
        }
        let first: &str = args[0].as_str();
        assert(first@ == av[0]);
        let rest = tail_of(&args);
        if str_eq(first, "browser-tui-frame") {
            let defaults = self.clone_frame_defaults();
            let ghost d = defaults;
            assert(frame_scan_start(d, options@.cwd) == frame_scan_start(
                self.frame_defaults_of(),
                options@.cwd,
            ));
            return match browser_tui_frame_from_args(rest, clone_opt_string(&options.cwd), defaults) {
                Ok(frame) => BrowserStep::RenderFrame(frame),
                Err(m) => BrowserStep::Finished(BrowserRunResult::stderr(m, 2)),
            };
        }
        if str_eq(first, "browser-tui-start") {
            return match parse_browser_tui_input_arg(rest) {
                Ok(prompt) => BrowserStep::Tui(
                    BrowserTuiRequest::Start(prompt),
                    browser_tui_options(&options),
                ),
                Err(m) => BrowserStep::Finished(BrowserRunResult::stderr(m, 2)),
            };
        }
        if str_eq(first, "browser-tui-input") {
            return match parse_browser_tui_required_input_arg(rest) {
                Ok(input) => BrowserStep::Tui(
                    BrowserTuiRequest::SetInput(input),
                    browser_tui_options(&options),
                ),
                Err(m) => BrowserStep::Finished(BrowserRunResult::stderr(m, 2)),
            };
        }
        if str_eq(first, "browser-tui-event") {
            return match parse_browser_tui_event_args(rest) {
                Ok(event) => BrowserStep::Tui(
                    BrowserTuiRequest::HandleEvent(event),
                    browser_tui_options(&options),
                ),
                Err(m) => BrowserStep::Finished(BrowserRunResult::stderr(m, 2)),
            };
        }
        if str_eq(first, "browser-tui-submit") {
            return BrowserStep::Tui(BrowserTuiRequest::Submit, browser_tui_options(&options));
        }
        if str_eq(first, "browser-tui-result") {
            return match parse_browser_tui_result_args(rest) {
                Ok(result) => BrowserStep::Tui(
                    BrowserTuiRequest::AppendResult(result),
                    browser_tui_options(&options),
                ),
                Err(m) => BrowserStep::Finished(BrowserRunResult::stderr(m, 2)),
            };
        }
        if str_eq(first, "browser-tui-agent-message") {
            return match parse_browser_tui_agent_message_args(rest) {
                Ok(message) => BrowserStep::Tui(
                    BrowserTuiRequest::AppendAgentMessage(message),
                    browser_tui_options(&options),
                ),
                Err(m) => BrowserStep::Finished(BrowserRunResult::stderr(m, 2)),
            };
        }
        if str_eq(first, "browser-tui-plan-update") {
            return match parse_browser_tui_plan_update_args(rest) {
                Ok(update) => BrowserStep::Tui(
                    BrowserTuiRequest::AppendPlanUpdate(update),
                    browser_tui_options(&options),
                ),
                Err(m) => BrowserStep::Finished(BrowserRunResult::stderr(m, 2)),
            };
        }
        if str_eq(first, "browser-tui-notification") {
            return match parse_browser_tui_notification_args(rest) {
                Ok(json) => BrowserStep::Tui(
                    BrowserTuiRequest::ApplyServerNotificationJson(json),
                    browser_tui_options(&options),
                ),
                Err(m) => BrowserStep::Finished(BrowserRunResult::stderr(m, 2)),
            };
        }
        BrowserStep::Finished(unsupported("debug", args))
    }
}

// ---------------------------------------------------------------------------
// The command line
// ---------------------------------------------------------------------------

pub struct SessionCommand {
    pub session_id: Option<String>,
    pub last: bool,
    pub all: bool,
}

/// The subcommands of the browser CLI, as the argument parser reads them.
pub enum BrowserSubcommand {
    Exec(Vec<String>),
    Review(Vec<String>),
    Login(LoginCommand),
    Logout,
    Mcp(Vec<String>),
    Plugin(Vec<String>),
    McpServer(Vec<String>),
    AppServer(Vec<String>),
    RemoteControl(Vec<String>),
    Completion(String),
    Update,
    Doctor,
    Sandbox(Vec<String>),
    Debug(Vec<String>),
    Execpolicy(Vec<String>),
    Apply(Vec<String>),
    Resume(SessionCommand),
    Archive(String),
    Unarchive(String),
    Fork(SessionCommand),
    Cloud(Vec<String>),
    ResponsesApiProxy(Vec<String>),
    StdioToUds(Vec<String>),
    ExecServer(Vec<String>),
    Features(FeaturesSubcommand),
}

/// The parsed command line of the browser CLI.
pub struct BrowserCli {
    pub cwd: Option<String>,
    pub config: Vec<String>,
    pub enable: Vec<String>,
    pub disable: Vec<String>,
    pub strict_config: bool,
    pub prompt: Option<String>,
    pub command: Option<BrowserSubcommand>,
}

/// Why the argument parser did not produce a command line: its message, and
/// whether it is an error (else it is help or version text).
pub struct CliParseFailure {
    pub message: String,
    pub use_stderr: bool,
}

/// The name and echoed arguments of a subcommand that the browser build
/// answers as unsupported.
pub open spec fn unsupported_of(c: BrowserSubcommand) -> Option<(Seq<char>, Seq<Seq<char>>)> {
    match c {
        BrowserSubcommand::Review(a) => Some(("review"@, string_views(a@))),
        BrowserSubcommand::Mcp(a) => Some(("mcp"@, string_views(a@))),
        BrowserSubcommand::Plugin(a) => Some(("plugin"@, string_views(a@))),
        BrowserSubcommand::McpServer(a) => Some(("mcp-server"@, string_views(a@))),
        BrowserSubcommand::AppServer(a) => Some(("app-server"@, string_views(a@))),
        BrowserSubcommand::RemoteControl(a) => Some(("remote-control"@, string_views(a@))),
        BrowserSubcommand::Update => Some(("update"@, Seq::empty())),
        BrowserSubcommand::Sandbox(a) => Some(("sandbox"@, string_views(a@))),
        BrowserSubcommand::Execpolicy(a) => Some(("execpolicy"@, string_views(a@))),
        BrowserSubcommand::Apply(a) => Some(("apply"@, string_views(a@))),
        BrowserSubcommand::Resume(c) => Some(
            ("resume"@, session_args_spec(opt_view(c.session_id), c.last, c.all)),
        ),
        BrowserSubcommand::Archive(t) => Some(("archive"@, seq![t@])),
        BrowserSubcommand::Unarchive(t) => Some(("unarchive"@, seq![t@])),
        BrowserSubcommand::Fork(c) => Some(
            ("fork"@, session_args_spec(opt_view(c.session_id), c.last, c.all)),
        ),
        BrowserSubcommand::Cloud(a) => Some(("cloud"@, string_views(a@))),
        BrowserSubcommand::ResponsesApiProxy(a) => Some(("responses-api-proxy"@, string_views(a@))),
        BrowserSubcommand::StdioToUds(a) => Some(("stdio-to-uds"@, string_views(a@))),
        BrowserSubcommand::ExecServer(a) => Some(("exec-server"@, string_views(a@))),
        _ => None,
    }
}

/// The answer of `codex exec` with these arguments.
pub open spec fn exec_result_is(
    r: BrowserRunResult,
    args: Seq<Seq<char>>,
    config: Seq<Seq<char>>,
    options: OptionsView,
    cwd: Option<Seq<char>>,
    assets: BrowserExecAssets,
) -> bool {
    match exec_scan(args, 0, exec_scan_start()) {
        Err(stop) => exec_stop_result(r, stop),
        Ok(st) => match exec_prompt_spec(st.prompt, stdin_view(options)) {
            None => stderr_is(r, no_exec_prompt_message(), 2),
            Some(p) => {
                &&& r.browser_exec matches Some(plan) && exec_plan_is(plan, p, st, config, options, cwd, assets)
                &&& r.stdout@.len() == 0
                &&& r.stderr@.len() == 0
                &&& r.exit_code == 0
                &&& r.env@.len() == 0
                &&& r.browser_login is None
                &&& r.browser_tui is None
            },
        },
    }
}

/// What one parsed command line does: the step `step` and the session before
/// (`s0`) and after (`s1`).
pub open spec fn command_outcome(
    s0: BrowserCodexCliSession,
    s1: BrowserCodexCliSession,
    cli: BrowserCli,
    options: OptionsView,
    step: BrowserStep,
) -> bool {
    match cli.command {
        None => (step matches BrowserStep::Tui(BrowserTuiRequest::Start(p), _) && opt_view(p)
            == opt_view(cli.prompt)) && tui_call_is(step, options) && s1 == s0,
        Some(BrowserSubcommand::Login(c)) => step matches BrowserStep::Finished(r) && login_outcome(
            s0,
            s1,
            c,
            options,
            r,
        ),
        Some(BrowserSubcommand::Logout) => step matches BrowserStep::Finished(r) && logout_outcome(
            s0,
            s1,
            r,
        ),
        Some(BrowserSubcommand::Completion(sh)) => (step matches BrowserStep::Finished(r)
            && stdout_is(r, completion_message(sh@), 0)) && s1 == s0,
        Some(BrowserSubcommand::Features(f)) => (step matches BrowserStep::Finished(r)
            && features_is(r, f)) && s1 == s0,
        Some(BrowserSubcommand::Doctor) => (step matches BrowserStep::Finished(r) && stdout_is(
            r,
            doctor_report(options.cwd),
            0,
        )) && s1 == s0,
        Some(BrowserSubcommand::Exec(a)) => (step matches BrowserStep::Finished(r)
            && exec_result_is(
            r,
            string_views(a@),
            string_views(cli.config@),
            options,
            opt_view(cli.cwd),
            s0.assets_of(),
        )) && s1 == s0,
        Some(BrowserSubcommand::Debug(a)) => debug_outcome(
            step,
            string_views(a@),
            options,
            s0.frame_defaults_of(),
        ) && s1 == s0,
        Some(c) => (unsupported_of(c) matches Some((n, a)) && finished_stderr(
            step,
            unsupported_message(n, a),
            78,
        )) && s1 == s0,
    }
}

pub open spec fn is_version_request(args: Seq<Seq<char>>) -> bool {
    args.len() == 1 && (args[0] == "--version"@ || args[0] == "-V"@)
}

/// The version that `codex --version` prints: `CODEX_CLI_VERSION`, else the
/// build's own.
pub open spec fn cli_version(options: OptionsView, package: Seq<char>) -> Seq<char> {
    match env_lookup(options.env, "CODEX_CLI_VERSION"@) {
        Some(v) => v,
        None => package,
    }
}

/// The whole effect of one run of the CLI.
pub open spec fn run_outcome(
    s0: BrowserCodexCliSession,
    s1: BrowserCodexCliSession,
    args: Seq<Seq<char>>,
    parsed: Result<BrowserCli, CliParseFailure>,
    options: OptionsView,
    step: BrowserStep,
) -> bool {
    if is_version_request(args) {
        (step matches BrowserStep::Finished(r) && stdout_is(
            r,
            "codex "@ + cli_version(options, s0.package_version_view()) + "\n"@,
            0,
        )) && s1 == s0
    } else {
        match parsed {
            Err(f) => (step matches BrowserStep::Finished(r) && if f.use_stderr {
                stderr_is(r, f.message@, 2)
            } else {
                stdout_is(r, f.message@, 0)
            }) && s1 == s0,
            Ok(cli) => command_outcome(
                s0,
                s1,
                cli,
                merged_options(options, s0.auth_env_view()),
                step,
            ),
        }
    }
}

impl BrowserCodexCliSession {
    fn exec_assets(&self) -> (r: BrowserExecAssets)
        ensures
            r.instructions@ == self.assets.instructions@,
            r.apply_patch_grammar@ == self.assets.apply_patch_grammar@,
    {
        BrowserExecAssets {
            instructions: clone_string(&self.assets.instructions),
            apply_patch_grammar: clone_string(&self.assets.apply_patch_grammar),
        }
    }

    /// Runs one parsed command line.
    pub fn run_command(&mut self, cli: BrowserCli, options: BrowserRunOptions) -> (step: BrowserStep)
        ensures
            command_outcome(*old(self), *final(self), cli, options@, step),
    {
        match cli.command {
            None => BrowserStep::Tui(BrowserTuiRequest::Start(cli.prompt), browser_tui_options(&options)),
            Some(BrowserSubcommand::Login(command)) => BrowserStep::Finished(self.run_login(command, options)),
            Some(BrowserSubcommand::Logout) => BrowserStep::Finished(self.run_logout()),
            Some(BrowserSubcommand::Completion(shell)) => BrowserStep::Finished(
                BrowserRunResult::stdout(render_completion_placeholder(shell), 0),
            ),
            Some(BrowserSubcommand::Features(command)) => BrowserStep::Finished(run_features(command)),
            Some(BrowserSubcommand::Doctor) => BrowserStep::Finished(run_doctor(options)),
            Some(BrowserSubcommand::Exec(args)) => {
                let assets = self.exec_assets();
                let ghost a = assets;
                let ghost av = string_views(args@);
                let r = match parse_exec_plan(args, &cli.config, &options, cli.cwd, &assets) {
                    Ok(plan) => BrowserRunResult::browser_exec(plan),
                    Err(result) => result,
                };
                proof {
                    assert(exec_result_is(r, av, string_views(cli.config@), options@, opt_view(cli.cwd), a));
                }
                BrowserStep::Finished(r)
            },
            Some(BrowserSubcommand::Review(args)) => BrowserStep::Finished(unsupported("review", args)),
            Some(BrowserSubcommand::Mcp(args)) => BrowserStep::Finished(unsupported("mcp", args)),
            Some(BrowserSubcommand::Plugin(args)) => BrowserStep::Finished(unsupported("plugin", args)),
            Some(BrowserSubcommand::McpServer(args)) => BrowserStep::Finished(unsupported("mcp-server", args)),
            Some(BrowserSubcommand::AppServer(args)) => BrowserStep::Finished(unsupported("app-server", args)),
            Some(BrowserSubcommand::RemoteControl(args)) => BrowserStep::Finished(
                unsupported("remote-control", args),
            ),
            Some(BrowserSubcommand::Update) => BrowserStep::Finished(unsupported("update", Vec::new())),
            Some(BrowserSubcommand::Sandbox(args)) => BrowserStep::Finished(unsupported("sandbox", args)),
            Some(BrowserSubcommand::Debug(args)) => self.run_debug(args, options),
            Some(BrowserSubcommand::Execpolicy(args)) => BrowserStep::Finished(unsupported("execpolicy", args)),
            Some(BrowserSubcommand::Apply(args)) => BrowserStep::Finished(unsupported("apply", args)),
            Some(BrowserSubcommand::Resume(c)) => BrowserStep::Finished(
                unsupported("resume", session_args(c.session_id, c.last, c.all)),
            ),
            Some(BrowserSubcommand::Archive(target)) => BrowserStep::Finished(unsupported("archive", vec![target])),
            Some(BrowserSubcommand::Unarchive(target)) => BrowserStep::Finished(
                unsupported("unarchive", vec![target]),
            ),
            Some(BrowserSubcommand::Fork(c)) => BrowserStep::Finished(
                unsupported("fork", session_args(c.session_id, c.last, c.all)),
            ),
            Some(BrowserSubcommand::Cloud(args)) => BrowserStep::Finished(unsupported("cloud", args)),
            Some(BrowserSubcommand::ResponsesApiProxy(args)) => BrowserStep::Finished(
                unsupported("responses-api-proxy", args),
            ),
            Some(BrowserSubcommand::StdioToUds(args)) => BrowserStep::Finished(unsupported("stdio-to-uds", args)),
            Some(BrowserSubcommand::ExecServer(args)) => BrowserStep::Finished(unsupported("exec-server", args)),
        }
    }

    /// One run of the CLI: `args` are the words after `codex`, and `parsed` is
    /// what the argument parser made of them.
    pub fn run(
        &mut self,
        args: Vec<String>,
        parsed: Result<BrowserCli, CliParseFailure>,
        options: BrowserRunOptions,
    ) -> (step: BrowserStep)
        ensures
            run_outcome(*old(self), *final(self), string_views(args@), parsed, options@, step),
    {
        let ghost av = string_views(args@);
        if args.len() == 1 {
            let a: &str = args[0].as_str();
            assert(a@ == av[0]);
            if str_eq(a, "--version") || str_eq(a, "-V") {
                let version = match env_value(&options.env, "CODEX_CLI_VERSION") {
                    Some(v) => v,
                    None => clone_string(&self.package_version),
                };
                return BrowserStep::Finished(
                    BrowserRunResult::stdout(cat3("codex ", version.as_str(), "\n"), 0),
                );
            }
        }
        let options = self.options_with_session_auth(options);
        match parsed {
            Err(failure) => {
                if failure.use_stderr {
                    BrowserStep::Finished(BrowserRunResult::stderr(failure.message, 2))
                } else {
                    BrowserStep::Finished(BrowserRunResult::stdout(failure.message, 0))
                }
            },
            Ok(cli) => self.run_command(cli, options),
        }
    }
}

// ---------------------------------------------------------------------------
// Laws of the session
// ---------------------------------------------------------------------------

/// Looking a name up in `env` with `extra` merged in finds the run's own entry
/// where there is one, and else the first entry of `extra` from `i` on.
pub proof fn lemma_merge_env_lookup(
    env: Seq<(Seq<char>, Seq<char>)>,
    extra: Seq<(Seq<char>, Seq<char>)>,
    i: int,
    key: Seq<char>,
)
    requires
        0 <= i <= extra.len(),
    ensures
        env_lookup(merge_env_from(env, extra, i), key) == (if env_lookup(env, key) is Some {
            env_lookup(env, key)
        } else {
            env_lookup_from(extra, key, i)
        }),
    decreases extra.len() - i,
{
    if i < extra.len() {
        let next = if env_lookup(env, extra[i].0) is None {
            env.push(extra[i])
        } else {
            env
        };
        lemma_merge_env_lookup(next, extra, i + 1, key);
        lemma_env_lookup_push(env, extra[i], key, 0);
    }
}

/// A run's own environment entry is never overridden by the stored session
/// credentials, and a name the run leaves unset takes the stored value.
pub proof fn law_run_env_precedence(o: OptionsView, extra: Seq<(Seq<char>, Seq<char>)>, key: Seq<char>)
    ensures
        env_lookup(merged_options(o, extra).env, key) == (if env_lookup(o.env, key) is Some {
            env_lookup(o.env, key)
        } else {
            env_lookup(extra, key)
        }),
{
    lemma_merge_env_lookup(o.env, extra, 0, key);
}

/// `codex login status` reports logged in (exit 0, on stdout) exactly when a
/// session login is stored or the run's environment sets one of
/// CODEX_ACCESS_TOKEN, CODEX_API_KEY or OPENAI_API_KEY; otherwise it answers
/// "Not logged in" on stderr with exit 1. With no stored login, a set
/// CODEX_ACCESS_TOKEN is the source it names.
pub proof fn law_login_status_reports_any_credential(
    r: BrowserRunResult,
    source: Option<Seq<char>>,
    options: OptionsView,
)
    requires
        login_status_is(r, source, options),
    ensures
        (r.exit_code == 0) <==> (source is Some || env_lookup(options.env, "CODEX_ACCESS_TOKEN"@) is Some
            || env_lookup(options.env, "CODEX_API_KEY"@) is Some || env_lookup(
            options.env,
            "OPENAI_API_KEY"@,
        ) is Some),
        r.exit_code == 0 ==> r.stderr@.len() == 0 && r.stdout@.len() > 0,
        r.exit_code != 0 ==> r.exit_code == 1 && r.stdout@.len() == 0 && r.stderr@
            == "Not logged in. Set CODEX_API_KEY, OPENAI_API_KEY, or CODEX_ACCESS_TOKEN in the browser shell environment.\n"@,
        source is None && env_lookup(options.env, "CODEX_ACCESS_TOKEN"@) is Some ==> r.stdout@
            == "Logged in for this browser session via CODEX_ACCESS_TOKEN.\n"@,
{
    reveal_strlit("Logged in for this browser session via ");
    reveal_strlit("Logged in for this browser session via CODEX_ACCESS_TOKEN.\n");
    reveal_strlit("Logged in for this browser session via CODEX_API_KEY.\n");
    reveal_strlit("Logged in for this browser session via OPENAI_API_KEY.\n");
    reveal_strlit(".\n");
}

/// After `codex login --with-api-key` stores a key, `codex login status`
/// reports the session as the source, whatever the later run's environment.
pub proof fn law_api_key_login_then_status(
    s0: BrowserCodexCliSession,
    s1: BrowserCodexCliSession,
    command: LoginCommand,
    options: OptionsView,
    r: BrowserRunResult,
    later: OptionsView,
    status: BrowserRunResult,
)
    requires
        command.with_api_key,
        !command.with_access_token,
        !command.status,
        api_key_input(options).len() > 0,
        login_outcome(s0, s1, command, options, r),
        login_status_is(status, s1.auth_source_view(), later),
    ensures
        stdout_is(status, "Logged in for this browser session via stdin api key/browser session.\n"@, 0),
{
    assert("Logged in for this browser session via "@ + api_key_source() + ".\n"@
        =~= "Logged in for this browser session via stdin api key/browser session.\n"@) by {
        reveal_strlit("Logged in for this browser session via ");
        reveal_strlit("stdin api key/browser session");
        reveal_strlit(".\n");
        reveal_strlit("Logged in for this browser session via stdin api key/browser session.\n");
    }
}

/// After `codex login --with-api-key` stores a key, every later run that does
/// not set `OPENAI_API_KEY` or `CODEX_API_KEY` itself sees the stored key
/// under both names.
pub proof fn law_api_key_login_reaches_later_runs(
    s0: BrowserCodexCliSession,
    s1: BrowserCodexCliSession,
    command: LoginCommand,
    options: OptionsView,
    r: BrowserRunResult,
    later: OptionsView,
)
    requires
        command.with_api_key,
        !command.with_access_token,
        !command.status,
        api_key_input(options).len() > 0,
        login_outcome(s0, s1, command, options, r),
    ensures
        env_lookup(later.env, "OPENAI_API_KEY"@) is None ==> env_lookup(
            merged_options(later, s1.auth_env_view()).env,
            "OPENAI_API_KEY"@,
        ) == Some(api_key_input(options)),
        env_lookup(later.env, "CODEX_API_KEY"@) is None ==> env_lookup(
            merged_options(later, s1.auth_env_view()).env,
            "CODEX_API_KEY"@,
        ) == Some(api_key_input(options)),
{
    let extra = s1.auth_env_view();
    let key = api_key_input(options);
    law_run_env_precedence(later, extra, "OPENAI_API_KEY"@);
    law_run_env_precedence(later, extra, "CODEX_API_KEY"@);
    assert(env_lookup(extra, "OPENAI_API_KEY"@) == Some(key));
    if "CODEX_API_KEY"@ == "OPENAI_API_KEY"@ {
        assert("CODEX_API_KEY"@[0] == "OPENAI_API_KEY"@[0]);
        reveal_strlit("CODEX_API_KEY");
        reveal_strlit("OPENAI_API_KEY");
    }
    assert(env_lookup_from(extra, "CODEX_API_KEY"@, 1) == Some(key));
}

/// Stored credentials outlive every run that is neither `codex login` nor
/// `codex logout`: such a run leaves the session as it was.
pub proof fn law_credentials_survive_other_runs(
    s0: BrowserCodexCliSession,
    s1: BrowserCodexCliSession,
    args: Seq<Seq<char>>,
    parsed: Result<BrowserCli, CliParseFailure>,
    options: OptionsView,
    step: BrowserStep,
)
    requires
        run_outcome(s0, s1, args, parsed, options, step),
        parsed matches Ok(cli) ==> !(cli.command matches Some(BrowserSubcommand::Login(_)))
            && !(cli.command matches Some(BrowserSubcommand::Logout)),
    ensures
        s1 == s0,
        s1.auth_env_view() == s0.auth_env_view(),
        s1.auth_source_view() == s0.auth_source_view(),
{
}

/// After `codex logout`, later runs see exactly their own environment, and
/// `codex login status` falls back to it.
pub proof fn law_logout_forgets_credentials(
    s0: BrowserCodexCliSession,
    s1: BrowserCodexCliSession,
    r: BrowserRunResult,
    later: OptionsView,
)
    requires
        logout_outcome(s0, s1, r),
    ensures
        merged_options(later, s1.auth_env_view()) == later,
        s1.auth_source_view() is None,
{
    assert(merge_env(later.env, s1.auth_env_view()) == later.env);
}

} // verus!
