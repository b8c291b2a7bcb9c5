use codex_browser::browser_cli::BrowserExecAssets;
use codex_browser::browser_cli::BrowserRunOptions;
use codex_browser::browser_cli::BrowserRunResult;
use codex_browser::browser_session::BrowserCli;
use codex_browser::browser_session::BrowserCodexCliSession;
use codex_browser::browser_session::BrowserStep;
use codex_browser::browser_session::BrowserSubcommand;
use codex_browser::browser_session::BrowserTuiRequest;
use codex_browser::browser_session::CliParseFailure;
use codex_browser::browser_session::LoginCommand;
use codex_browser::browser_tui::BrowserTuiFrameDefaults;

fn session() -> BrowserCodexCliSession {
    BrowserCodexCliSession::new(
        BrowserExecAssets {
            instructions: "You are Codex.".to_string(),
            apply_patch_grammar: "grammar".to_string(),
        },
        "0.0.0".to_string(),
        BrowserTuiFrameDefaults {
            width: 80,
            height: 24,
            version: None,
            model: "gpt-5.5".to_string(),
        },
    )
}

fn cli(command: Option<BrowserSubcommand>) -> BrowserCli {
    BrowserCli {
        cwd: None,
        config: Vec::new(),
        enable: Vec::new(),
        disable: Vec::new(),
        strict_config: false,
        prompt: None,
        command,
    }
}

fn login(status: bool, with_api_key: bool) -> BrowserCli {
    cli(Some(BrowserSubcommand::Login(LoginCommand {
        with_api_key,
        with_access_token: false,
        device_auth: false,
        status,
    })))
}

fn finished(step: BrowserStep) -> BrowserRunResult {
    match step {
        BrowserStep::Finished(result) => result,
        _ => panic!("the run should finish"),
    }
}

fn args(words: &[&str]) -> Vec<String> {
    words.iter().map(|w| w.to_string()).collect()
}

#[test]
fn version_uses_browser_release_env_override() {
    let mut session = session();
    let parsed = Err(CliParseFailure {
        message: "codex 0.0.0\n".to_string(),
        use_stderr: false,
    });
    let result = finished(session.run(
        args(&["--version"]),
        parsed,
        BrowserRunOptions {
            env: vec![("CODEX_CLI_VERSION".to_string(), "0.137.0".to_string())],
            ..BrowserRunOptions::default()
        },
    ));
    assert_eq!(result.exit_code, 0);
    assert_eq!(result.stdout, "codex 0.137.0\n");
}

#[test]
fn login_status_reads_browser_env() {
    let mut session = session();
    let result = finished(session.run(
        args(&["login", "status"]),
        Ok(login(true, false)),
        BrowserRunOptions {
            env: vec![("OPENAI_API_KEY".to_string(), "test-key".to_string())],
            ..BrowserRunOptions::default()
        },
    ));
    assert_eq!(result.exit_code, 0);
    assert!(result.stdout.contains("OPENAI_API_KEY"));

    let result = finished(session.run(
        args(&["login", "status"]),
        Ok(login(true, false)),
        BrowserRunOptions {
            env: vec![("CODEX_API_KEY".to_string(), "test-key".to_string())],
            ..BrowserRunOptions::default()
        },
    ));
    assert_eq!(result.exit_code, 0);
    assert!(result.stdout.contains("CODEX_API_KEY"));
}

#[test]
fn login_with_api_key_returns_browser_session_env() {
    let mut session = session();
    let result = finished(session.run(
        args(&["login", "--with-api-key"]),
        Ok(login(false, true)),
        BrowserRunOptions {
            stdin: Some("sk-test\n".to_string()),
            ..BrowserRunOptions::default()
        },
    ));
    assert_eq!(result.exit_code, 0);
    assert!(result.stdout.contains("Stored OpenAI API key"));
    assert_eq!(
        result.env,
        vec![
            ("OPENAI_API_KEY".to_string(), "sk-test".to_string()),
            ("CODEX_API_KEY".to_string(), "sk-test".to_string()),
        ]
    );

    let status = finished(session.run(
        args(&["login", "status"]),
        Ok(login(true, false)),
        BrowserRunOptions::default(),
    ));
    assert_eq!(status.exit_code, 0);
    assert!(status.stdout.contains("stdin api key/browser session"));
}

#[test]
fn exec_returns_browser_host_plan() {
    let mut session = session();
    let result = finished(session.run(
        args(&["exec", "hello"]),
        Ok(cli(Some(BrowserSubcommand::Exec(args(&["hello"]))))),
        BrowserRunOptions::default(),
    ));
    assert_eq!(result.exit_code, 0);
    let plan = result.browser_exec.expect("exec should produce host plan");
    assert_eq!(plan.prompt, "hello");
    assert_eq!(plan.model, "gpt-5.5");
}

#[test]
fn native_only_subcommands_are_explicit() {
    let mut session = session();
    let result = finished(session.run(
        args(&["review", "hello"]),
        Ok(cli(Some(BrowserSubcommand::Review(args(&["hello"]))))),
        BrowserRunOptions::default(),
    ));
    assert_eq!(result.exit_code, 78);
    assert!(result.stderr.contains("recognized by the browser WASM CLI"));
}

#[test]
fn interactive_start_asks_the_host_to_start_the_terminal() {
    let mut session = session();
    let mut parsed = cli(None);
    parsed.prompt = Some("hello".to_string());
    let step = session.run(
        args(&["hello"]),
        Ok(parsed),
        BrowserRunOptions {
            cwd: Some("/work".to_string()),
            terminal_width: Some(100),
            ..BrowserRunOptions::default()
        },
    );
    match step {
        BrowserStep::Tui(BrowserTuiRequest::Start(prompt), options) => {
            assert_eq!(prompt.as_deref(), Some("hello"));
            assert_eq!(options.cwd.as_deref(), Some("/work"));
            assert_eq!(options.terminal_width, Some(100));
        }
        _ => panic!("an interactive start goes to the terminal"),
    }
}

#[test]
fn stored_login_survives_other_runs() {
    let mut session = session();
    finished(session.run(
        args(&["login", "--with-api-key"]),
        Ok(login(false, true)),
        BrowserRunOptions {
            stdin: Some("sk-kept".to_string()),
            ..BrowserRunOptions::default()
        },
    ));
    finished(session.run(
        args(&["review", "x"]),
        Ok(cli(Some(BrowserSubcommand::Review(args(&["x"]))))),
        BrowserRunOptions::default(),
    ));
    finished(session.run(
        args(&["doctor"]),
        Ok(cli(Some(BrowserSubcommand::Doctor))),
        BrowserRunOptions::default(),
    ));
    let status = finished(session.run(
        args(&["login", "status"]),
        Ok(login(true, false)),
        BrowserRunOptions::default(),
    ));
    assert_eq!(status.exit_code, 0);
    assert_eq!(
        status.stdout,
        "Logged in for this browser session via stdin api key/browser session.\n"
    );
}
