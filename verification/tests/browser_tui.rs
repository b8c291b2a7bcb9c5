use codex_browser::browser_tui::browser_tui_frame_from_args;
use codex_browser::browser_tui::parse_browser_tui_event_args;
use codex_browser::browser_tui::parse_browser_tui_input_arg;
use codex_browser::browser_tui::parse_browser_tui_key_code;
use codex_browser::browser_tui::parse_browser_tui_plan_status;
use codex_browser::browser_tui::parse_browser_tui_plan_step;
use codex_browser::browser_tui::parse_browser_tui_plan_update_args;
use codex_browser::browser_tui::parse_browser_tui_required_input_arg;
use codex_browser::browser_tui::parse_dimension;
use codex_browser::browser_tui::BrowserTuiEvent;
use codex_browser::browser_tui::BrowserTuiFrameDefaults;
use codex_browser::browser_tui::BrowserTuiKeyCode;
use codex_browser::browser_tui::StepStatus;

fn args(words: &[&str]) -> Vec<String> {
    words.iter().map(|w| w.to_string()).collect()
}

#[test]
fn key_names_are_read_loosely() {
    assert_eq!(parse_browser_tui_key_code(" Return ", ""), BrowserTuiKeyCode::Enter);
    assert_eq!(parse_browser_tui_key_code("ESC", ""), BrowserTuiKeyCode::Escape);
    assert_eq!(parse_browser_tui_key_code("char", "x"), BrowserTuiKeyCode::Char("x".to_string()));
    assert_eq!(parse_browser_tui_key_code("", "y"), BrowserTuiKeyCode::Char("y".to_string()));
    assert_eq!(parse_browser_tui_key_code("c", ""), BrowserTuiKeyCode::Char("c".to_string()));
    assert_eq!(parse_browser_tui_key_code("F5", ""), BrowserTuiKeyCode::Unknown("f5".to_string()));
    assert_eq!(parse_browser_tui_key_code("F5", "z"), BrowserTuiKeyCode::Char("z".to_string()));
}

#[test]
fn key_events_take_their_modifiers() {
    let event = parse_browser_tui_event_args(args(&["--type", "key", "--name", "char", "--text", "c", "--ctrl"])).unwrap();
    match event {
        BrowserTuiEvent::Key(key) => {
            assert_eq!(key.code, BrowserTuiKeyCode::Char("c".to_string()));
            assert!(key.ctrl);
            assert!(!key.alt);
        }
        _ => panic!("a key event"),
    }
    assert_eq!(
        parse_browser_tui_event_args(args(&["--type", "paste", "--text", "hi"])).unwrap(),
        BrowserTuiEvent::Paste("hi".to_string())
    );
    assert_eq!(parse_browser_tui_event_args(args(&["--type", "draw"])).unwrap(), BrowserTuiEvent::Draw);
    assert_eq!(
        parse_browser_tui_event_args(args(&["--type", "wiggle"])),
        Err("error: unsupported browser TUI event type 'wiggle'\n".to_string())
    );
}

#[test]
fn input_options() {
    assert_eq!(parse_browser_tui_required_input_arg(args(&["--input", "a", "--input", "b"])), Ok("b".to_string()));
    assert_eq!(parse_browser_tui_required_input_arg(Vec::new()), Ok(String::new()));
    assert_eq!(parse_browser_tui_input_arg(Vec::new()), Ok(None));
    assert_eq!(
        parse_browser_tui_required_input_arg(args(&["--input"])),
        Err("error: a value is required for '--input'\n".to_string())
    );
    assert_eq!(
        parse_browser_tui_required_input_arg(args(&["--bogus"])),
        Err("error: unsupported browser TUI debug option '--bogus'\n".to_string())
    );
}

#[test]
fn plan_steps() {
    assert_eq!(parse_browser_tui_plan_status(" inProgress "), Ok(StepStatus::InProgress));
    assert_eq!(parse_browser_tui_plan_status("done"), Ok(StepStatus::Completed));
    assert!(parse_browser_tui_plan_status("later").is_err());
    let step = parse_browser_tui_plan_step("completed:Compile the renderer").unwrap();
    assert_eq!(step.step, "Compile the renderer");
    assert_eq!(step.status, StepStatus::Completed);
    assert_eq!(
        parse_browser_tui_plan_step("no colon"),
        Err("error: --step must be formatted as <status>:<text>\n".to_string())
    );
    assert_eq!(
        parse_browser_tui_plan_step("pending:   "),
        Err("error: --step text must not be empty\n".to_string())
    );
    let update = parse_browser_tui_plan_update_args(args(&[
        "--explanation",
        "Browser wasm plan update",
        "--step",
        "completed:Compile the forked Codex TUI renderer for wasm",
        "--step",
        "inProgress:Route browser terminal input through the wasm frame loop",
    ]))
    .unwrap();
    assert_eq!(update.explanation.as_deref(), Some("Browser wasm plan update"));
    assert_eq!(update.plan.len(), 2);
    assert_eq!(update.plan[1].status, StepStatus::InProgress);
}

#[test]
fn dimensions_and_frames() {
    assert_eq!(parse_dimension("--width", Some("100")), Ok(100));
    assert_eq!(parse_dimension("--width", None), Err("--width requires a value\n".to_string()));
    assert_eq!(parse_dimension("--width", Some("wide")), Err("--width must be an integer\n".to_string()));
    let defaults = BrowserTuiFrameDefaults {
        width: 80,
        height: 24,
        version: None,
        model: "gpt-5.5".to_string(),
    };
    let frame = browser_tui_frame_from_args(args(&["--width", "500", "--height", "5", "--input", "hi"]), Some("/workspace".to_string()), defaults.clone()).unwrap();
    assert_eq!(frame.width, 240);
    assert_eq!(frame.height, 12);
    assert_eq!(frame.input, "hi");
    assert_eq!(frame.directory, "/workspace");
    assert_eq!(frame.model, "gpt-5.5");
    let defaulted = browser_tui_frame_from_args(Vec::new(), None, defaults.clone()).unwrap();
    assert_eq!(defaulted.width, 80);
    assert_eq!(defaulted.directory, "~");
    assert!(browser_tui_frame_from_args(args(&["--wat"]), None, defaults).is_err());
}
