use vstd::prelude::*;

use crate::browser_cli::cat3;
use crate::browser_cli::clone_string;
use crate::browser_cli::opt_view;
use crate::text::lower_seq;
use crate::text::owned;
use crate::text::parse_i32;
use crate::text::parse_i32_spec;
use crate::text::parse_u16;
use crate::text::parse_u16_spec;
use crate::text::split_once;
use crate::text::split_once_seq;
use crate::text::str_eq;
use crate::text::string_views;
use crate::text::to_ascii_lowercase;
use crate::text::trim;
use crate::text::trim_seq;

verus! {

// ---------------------------------------------------------------------------
// What the interactive terminal is told
// ---------------------------------------------------------------------------

#[derive(Debug, Clone, PartialEq, Eq)]
pub enum BrowserTuiKeyCode {
    Char(String),
    Enter,
    Backspace,
    Delete,
    Escape,
    Tab,
    Left,
    Right,
    Up,
    Down,
    Home,
    End,
    Unknown(String),
}

#[derive(Debug, Clone, PartialEq, Eq)]
pub struct BrowserTuiKeyEvent {
    pub code: BrowserTuiKeyCode,
    pub ctrl: bool,
    pub alt: bool,
    pub shift: bool,
}

#[derive(Debug, Clone, PartialEq, Eq)]
pub enum BrowserTuiEvent {
    Key(BrowserTuiKeyEvent),
    Paste(String),
    Resize,
    Draw,
}

#[derive(Debug, Clone, Copy, PartialEq, Eq, Structural)]
pub enum BrowserTuiResultKind {
    Exec,
    Shell,
}

/// The result of a command that the host ran for the terminal.
#[derive(Debug, Clone, PartialEq, Eq)]
pub struct BrowserTuiAppendResult {
    pub kind: BrowserTuiResultKind,
    pub stdout: String,
    pub stderr: String,
    pub exit_code: i32,
}

#[derive(Debug, Clone, Copy, PartialEq, Eq, Structural)]
pub enum StepStatus {
    Pending,
    InProgress,
    Completed,
}

#[derive(Debug, Clone, PartialEq, Eq)]
pub struct PlanItemArg {
    pub step: String,
    pub status: StepStatus,
}

#[derive(Debug, Clone, PartialEq, Eq)]
pub struct UpdatePlanArgs {
    pub explanation: Option<String>,
    pub plan: Vec<PlanItemArg>,
}

/// The terminal settings of one CLI run.
#[derive(Debug, Clone, PartialEq, Eq)]
pub struct BrowserTuiSessionOptions {
    pub cwd: Option<String>,
    pub env: Vec<(String, String)>,
    pub terminal_width: Option<u16>,
    pub terminal_height: Option<u16>,
}

/// A key code, as plain values.
pub enum KeyCodeView {
    Char(Seq<char>),
    Enter,
    Backspace,
    Delete,
    Escape,
    Tab,
    Left,
    Right,
    Up,
    Down,
    Home,
    End,
    Unknown(Seq<char>),
}

pub open spec fn key_code_view(c: BrowserTuiKeyCode) -> KeyCodeView {
    match c {
        BrowserTuiKeyCode::Char(s) => KeyCodeView::Char(s@),
        BrowserTuiKeyCode::Enter => KeyCodeView::Enter,
        BrowserTuiKeyCode::Backspace => KeyCodeView::Backspace,
        BrowserTuiKeyCode::Delete => KeyCodeView::Delete,
        BrowserTuiKeyCode::Escape => KeyCodeView::Escape,
        BrowserTuiKeyCode::Tab => KeyCodeView::Tab,
        BrowserTuiKeyCode::Left => KeyCodeView::Left,
        BrowserTuiKeyCode::Right => KeyCodeView::Right,
        BrowserTuiKeyCode::Up => KeyCodeView::Up,
        BrowserTuiKeyCode::Down => KeyCodeView::Down,
        BrowserTuiKeyCode::Home => KeyCodeView::Home,
        BrowserTuiKeyCode::End => KeyCodeView::End,
        BrowserTuiKeyCode::Unknown(s) => KeyCodeView::Unknown(s@),
    }
}

/// The key named `name` (trimmed, ASCII case ignored); a named letter or an
/// unknown name with text types that text.
pub open spec fn key_code_spec(name: Seq<char>, text: Seq<char>) -> KeyCodeView {
    let k = lower_seq(trim_seq(name));
    if k.len() == 0 || k == "char"@ {
        KeyCodeView::Char(text)
    } else if k == "return"@ || k == "enter"@ {
        KeyCodeView::Enter
    } else if k == "backspace"@ {
        KeyCodeView::Backspace
    } else if k == "delete"@ || k == "del"@ {
        KeyCodeView::Delete
    } else if k == "escape"@ || k == "esc"@ {
        KeyCodeView::Escape
    } else if k == "tab"@ {
        KeyCodeView::Tab
    } else if k == "left"@ {
        KeyCodeView::Left
    } else if k == "right"@ {
        KeyCodeView::Right
    } else if k == "up"@ {
        KeyCodeView::Up
    } else if k == "down"@ {
        KeyCodeView::Down
    } else if k == "home"@ {
        KeyCodeView::Home
    } else if k == "end"@ {
        KeyCodeView::End
    } else if k == "c"@ || k == "d"@ {
        if text.len() > 0 {
            KeyCodeView::Char(text)
        } else {
            KeyCodeView::Char(k)
        }
    } else if text.len() > 0 {
        KeyCodeView::Char(text)
    } else {
        KeyCodeView::Unknown(k)
    }
}

/// Each named key maps to the key code of that name, whatever the text typed
/// with it: the arrows, Home, End, Tab, Enter (also `return`), Backspace,
/// Delete (also `del`) and Escape (also `esc`); the name is trimmed and its
/// ASCII case ignored.
pub proof fn law_named_keys_map_to_their_codes(name: Seq<char>, text: Seq<char>)
    ensures
        lower_seq(trim_seq(name)) == "up"@ ==> key_code_spec(name, text) == KeyCodeView::Up,
        lower_seq(trim_seq(name)) == "down"@ ==> key_code_spec(name, text) == KeyCodeView::Down,
        lower_seq(trim_seq(name)) == "left"@ ==> key_code_spec(name, text) == KeyCodeView::Left,
        lower_seq(trim_seq(name)) == "right"@ ==> key_code_spec(name, text) == KeyCodeView::Right,
        lower_seq(trim_seq(name)) == "home"@ ==> key_code_spec(name, text) == KeyCodeView::Home,
        lower_seq(trim_seq(name)) == "end"@ ==> key_code_spec(name, text) == KeyCodeView::End,
        lower_seq(trim_seq(name)) == "tab"@ ==> key_code_spec(name, text) == KeyCodeView::Tab,
        lower_seq(trim_seq(name)) == "enter"@ ==> key_code_spec(name, text) == KeyCodeView::Enter,
        lower_seq(trim_seq(name)) == "return"@ ==> key_code_spec(name, text) == KeyCodeView::Enter,
        lower_seq(trim_seq(name)) == "backspace"@ ==> key_code_spec(name, text)
            == KeyCodeView::Backspace,
        lower_seq(trim_seq(name)) == "delete"@ ==> key_code_spec(name, text) == KeyCodeView::Delete,
        lower_seq(trim_seq(name)) == "del"@ ==> key_code_spec(name, text) == KeyCodeView::Delete,
        lower_seq(trim_seq(name)) == "escape"@ ==> key_code_spec(name, text) == KeyCodeView::Escape,
        lower_seq(trim_seq(name)) == "esc"@ ==> key_code_spec(name, text) == KeyCodeView::Escape,
{
    reveal_strlit("char");
    reveal_strlit("return");
    reveal_strlit("enter");
    reveal_strlit("backspace");
    reveal_strlit("delete");
    reveal_strlit("del");
    reveal_strlit("escape");
    reveal_strlit("esc");
    reveal_strlit("tab");
    reveal_strlit("left");
    reveal_strlit("right");
    reveal_strlit("up");
    reveal_strlit("down");
    reveal_strlit("home");
    reveal_strlit("end");
    assert("char"@[0] == 'c' && "left"@[0] == 'l' && "down"@[0] == 'd' && "home"@[0] == 'h');
    assert("del"@[0] == 'd' && "esc"@[0] == 'e' && "tab"@[0] == 't' && "end"@[0] == 'e');
    assert("esc"@[1] == 's' && "end"@[1] == 'n');
    assert("enter"@[0] == 'e' && "right"@[0] == 'r');
    assert("return"@[0] == 'r' && "delete"@[0] == 'd' && "escape"@[0] == 'e');
}

pub fn parse_browser_tui_key_code(name: &str, text: &str) -> (r: BrowserTuiKeyCode)
    ensures
        key_code_view(r) == key_code_spec(name@, text@),
{
    let normalized = to_ascii_lowercase(trim(name));
    let k: &str = normalized.as_str();
    let has_text = text.unicode_len() > 0;
    if k.unicode_len() == 0 || str_eq(k, "char") {
        BrowserTuiKeyCode::Char(owned(text))
    } else if str_eq(k, "return") || str_eq(k, "enter") {
        BrowserTuiKeyCode::Enter
    } else if str_eq(k, "backspace") {
        BrowserTuiKeyCode::Backspace
    } else if str_eq(k, "delete") || str_eq(k, "del") {
        BrowserTuiKeyCode::Delete
    } else if str_eq(k, "escape") || str_eq(k, "esc") {
        BrowserTuiKeyCode::Escape
    } else if str_eq(k, "tab") {
        BrowserTuiKeyCode::Tab
    } else if str_eq(k, "left") {
        BrowserTuiKeyCode::Left
    } else if str_eq(k, "right") {
        BrowserTuiKeyCode::Right
    } else if str_eq(k, "up") {
        BrowserTuiKeyCode::Up
    } else if str_eq(k, "down") {
        BrowserTuiKeyCode::Down
    } else if str_eq(k, "home") {
        BrowserTuiKeyCode::Home
    } else if str_eq(k, "end") {
        BrowserTuiKeyCode::End
    } else if str_eq(k, "c") || str_eq(k, "d") {
        if has_text {
            BrowserTuiKeyCode::Char(owned(text))
        } else {
            BrowserTuiKeyCode::Char(owned(k))
        }
    } else if has_text {
        BrowserTuiKeyCode::Char(owned(text))
    } else {
        BrowserTuiKeyCode::Unknown(owned(k))
    }
}

// ---------------------------------------------------------------------------
// Option scans of the terminal debug commands
// ---------------------------------------------------------------------------

pub open spec fn missing_value(flag: Seq<char>) -> Seq<char> {
    "error: a value is required for '"@ + flag + "'\n"@
}

/// `--input <text>`, the last one given.
pub open spec fn input_scan(args: Seq<Seq<char>>, i: int, input: Option<Seq<char>>) -> Result<
    Option<Seq<char>>,
    Seq<char>,
>
    decreases args.len() - i,
{
    if i < 0 || i >= args.len() {
        Ok(input)
    } else if args[i] == "--input"@ {
        if i + 1 < args.len() {
            input_scan(args, i + 2, Some(args[i + 1]))
        } else {
            Err(missing_value("--input"@))
        }
    } else {
        Err("error: unsupported browser TUI debug option '"@ + args[i] + "'\n"@)
    }
}

pub open spec fn required_input_spec(args: Seq<Seq<char>>) -> Result<Seq<char>, Seq<char>> {
    match input_scan(args, 0, None) {
        Ok(Some(v)) => Ok(v),
        Ok(None) => Ok(Seq::empty()),
        Err(m) => Err(m),
    }
}

/// The `--input` option of the terminal debug commands; no option gives
/// empty input.
pub fn parse_browser_tui_required_input_arg(args: Vec<String>) -> (r: Result<String, String>)
    ensures
        match r {
            Ok(v) => required_input_spec(string_views(args@)) == Ok::<Seq<char>, Seq<char>>(v@),
            Err(m) => required_input_spec(string_views(args@)) == Err::<Seq<char>, Seq<char>>(m@),
        },
{
    let ghost av = string_views(args@);
    let mut input: Option<String> = None;
    let mut index: usize = 0;
    while index < args.len()
        invariant
            av == string_views(args@),
            index <= args.len(),
            input_scan(av, 0, None) == input_scan(av, index as int, opt_view(input)),
        decreases args.len() - index,
    {
        let arg: &str = args[index].as_str();
        assert(arg@ == av[index as int]);
        if str_eq(arg, "--input") {
            if index + 1 >= args.len() {
                return Err(cat3("error: a value is required for '", "--input", "'\n"));
            }
            input = Some(clone_string(&args[index + 1]));
            index = index + 2;
        } else {
            return Err(cat3("error: unsupported browser TUI debug option '", arg, "'\n"));
        }
    }
    match input {
        Some(v) => Ok(v),
        None => Ok(String::new()),
    }
}

/// The optional `--input` of `browser-tui-start`: no arguments give no prompt.
pub fn parse_browser_tui_input_arg(args: Vec<String>) -> (r: Result<Option<String>, String>)
    ensures
        args@.len() == 0 ==> r matches Ok(None),
        args@.len() > 0 ==> match r {
            Ok(Some(v)) => required_input_spec(string_views(args@)) == Ok::<Seq<char>, Seq<char>>(
                v@,
            ),
            Ok(None) => false,
            Err(m) => required_input_spec(string_views(args@)) == Err::<Seq<char>, Seq<char>>(m@),
        },
{
    if args.len() == 0 {
        return Ok(None);
    }
    match parse_browser_tui_required_input_arg(args) {
        Ok(v) => Ok(Some(v)),
        Err(m) => Err(m),
    }
}

/// What the options of `browser-tui-event` have set so far.
#[verifier::ext_equal]
pub struct EventScan {
    pub event_type: Seq<char>,
    pub name: Seq<char>,
    pub text: Seq<char>,
    pub ctrl: bool,
    pub alt: bool,
    pub shift: bool,
}

impl EventScan {
    pub open spec fn with_type(self, v: Seq<char>) -> EventScan {
        EventScan { event_type: v, name: self.name, text: self.text, ctrl: self.ctrl, alt: self.alt, shift: self.shift }
    }

    pub open spec fn with_name(self, v: Seq<char>) -> EventScan {
        EventScan { event_type: self.event_type, name: v, text: self.text, ctrl: self.ctrl, alt: self.alt, shift: self.shift }
    }

    pub open spec fn with_text(self, v: Seq<char>) -> EventScan {
        EventScan { event_type: self.event_type, name: self.name, text: v, ctrl: self.ctrl, alt: self.alt, shift: self.shift }
    }

    pub open spec fn with_ctrl(self) -> EventScan {
        EventScan { event_type: self.event_type, name: self.name, text: self.text, ctrl: true, alt: self.alt, shift: self.shift }
    }

    pub open spec fn with_alt(self) -> EventScan {
        EventScan { event_type: self.event_type, name: self.name, text: self.text, ctrl: self.ctrl, alt: true, shift: self.shift }
    }

    pub open spec fn with_shift(self) -> EventScan {
        EventScan { event_type: self.event_type, name: self.name, text: self.text, ctrl: self.ctrl, alt: self.alt, shift: true }
    }
}

pub open spec fn event_scan_start() -> EventScan {
    EventScan { event_type: "key"@, name: Seq::empty(), text: Seq::empty(), ctrl: false, alt: false, shift: false }
}

pub open spec fn event_scan(args: Seq<Seq<char>>, i: int, st: EventScan) -> Result<EventScan, Seq<char>>
    decreases args.len() - i,
{
    if i < 0 || i >= args.len() {
        Ok(st)
    } else {
        let a = args[i];
        let has_value = i + 1 < args.len();
        if a == "--type"@ {
            if has_value {
                event_scan(args, i + 2, st.with_type(args[i + 1]))
            } else {
                Err(missing_value(a))
            }
        } else if a == "--name"@ {
            if has_value {
                event_scan(args, i + 2, st.with_name(args[i + 1]))
            } else {
                Err(missing_value(a))
            }
        } else if a == "--text"@ {
            if has_value {
                event_scan(args, i + 2, st.with_text(args[i + 1]))
            } else {
                Err(missing_value(a))
            }
        } else if a == "--ctrl"@ {
            event_scan(args, i + 1, st.with_ctrl())
        } else if a == "--alt"@ || a == "--meta"@ {
            event_scan(args, i + 1, st.with_alt())
        } else if a == "--shift"@ {
            event_scan(args, i + 1, st.with_shift())
        } else {
            Err("error: unsupported browser TUI event option '"@ + a + "'\n"@)
        }
    }
}

/// An event, as plain values.
pub enum EventView {
    Key(KeyCodeView, bool, bool, bool),
    Paste(Seq<char>),
    Resize,
    Draw,
}

pub open spec fn event_view(e: BrowserTuiEvent) -> EventView {
    match e {
        BrowserTuiEvent::Key(k) => EventView::Key(key_code_view(k.code), k.ctrl, k.alt, k.shift),
        BrowserTuiEvent::Paste(t) => EventView::Paste(t@),
        BrowserTuiEvent::Resize => EventView::Resize,
        BrowserTuiEvent::Draw => EventView::Draw,
    }
}

/// The event that the options of `browser-tui-event` describe, or the
/// message that refuses them.
pub open spec fn event_spec(args: Seq<Seq<char>>) -> Result<EventView, Seq<char>> {
    match event_scan(args, 0, event_scan_start()) {
        Err(m) => Err(m),
        Ok(st) => if st.event_type == "key"@ {
            Ok(EventView::Key(key_code_spec(st.name, st.text), st.ctrl, st.alt, st.shift))
        } else if st.event_type == "paste"@ {
            Ok(EventView::Paste(st.text))
        } else if st.event_type == "resize"@ {
            Ok(EventView::Resize)
        } else if st.event_type == "draw"@ {
            Ok(EventView::Draw)
        } else {
            Err("error: unsupported browser TUI event type '"@ + st.event_type + "'\n"@)
        },
    }
}

pub fn parse_browser_tui_event_args(args: Vec<String>) -> (r: Result<BrowserTuiEvent, String>)
    ensures
        match r {
            Ok(e) => event_spec(string_views(args@)) == Ok::<EventView, Seq<char>>(event_view(e)),
            Err(m) => event_spec(string_views(args@)) == Err::<EventView, Seq<char>>(m@),
        },
{
    let ghost av = string_views(args@);
    let mut event_type = owned("key");
    let mut name = String::new();
    let mut text = String::new();
    let mut ctrl = false;
    let mut alt = false;
    let mut shift = false;
    let mut index: usize = 0;
    while index < args.len()
        invariant
            av == string_views(args@),
            index <= args.len(),
            event_scan(av, 0, event_scan_start()) == event_scan(
                av,
                index as int,
                EventScan { event_type: event_type@, name: name@, text: text@, ctrl, alt, shift },
            ),
        decreases args.len() - index,
    {
        let arg: &str = args[index].as_str();
        assert(arg@ == av[index as int]);
        let has_value = index + 1 < args.len();
        if str_eq(arg, "--type") {
            if !has_value {
                return Err(cat3("error: a value is required for '", arg, "'\n"));
            }
            event_type = clone_string(&args[index + 1]);
            index = index + 2;
        } else if str_eq(arg, "--name") {
            if !has_value {
                return Err(cat3("error: a value is required for '", arg, "'\n"));
            }
            name = clone_string(&args[index + 1]);
            index = index + 2;
        } else if str_eq(arg, "--text") {
            if !has_value {
                return Err(cat3("error: a value is required for '", arg, "'\n"));
            }
            text = clone_string(&args[index + 1]);
            index = index + 2;
        } else if str_eq(arg, "--ctrl") {
            ctrl = true;
            index = index + 1;
        } else if str_eq(arg, "--alt") || str_eq(arg, "--meta") {
            alt = true;
            index = index + 1;
        } else if str_eq(arg, "--shift") {
            shift = true;
            index = index + 1;
        } else {
            return Err(cat3("error: unsupported browser TUI event option '", arg, "'\n"));
        }
    }
    let t: &str = event_type.as_str();
    if str_eq(t, "key") {
        let code = parse_browser_tui_key_code(name.as_str(), text.as_str());
        Ok(BrowserTuiEvent::Key(BrowserTuiKeyEvent { code, ctrl, alt, shift }))
    } else if str_eq(t, "paste") {
        Ok(BrowserTuiEvent::Paste(text))
    } else if str_eq(t, "resize") {
        Ok(BrowserTuiEvent::Resize)
    } else if str_eq(t, "draw") {
        Ok(BrowserTuiEvent::Draw)
    } else {
        Err(cat3("error: unsupported browser TUI event type '", t, "'\n"))
    }
}

/// What the options of `browser-tui-result` have set so far.
#[verifier::ext_equal]
pub struct ResultScan {
    pub kind: BrowserTuiResultKind,
    pub stdout: Seq<char>,
    pub stderr: Seq<char>,
    pub exit_code: i32,
}

pub open spec fn result_scan(args: Seq<Seq<char>>, i: int, st: ResultScan) -> Result<ResultScan, Seq<char>>
    decreases args.len() - i,
{
    if i < 0 || i >= args.len() {
        Ok(st)
    } else {
        let a = args[i];
        if a != "--kind"@ && a != "--stdout"@ && a != "--stderr"@ && a != "--exit-code"@ {
            Err("error: unsupported browser TUI result option '"@ + a + "'\n"@)
        } else if i + 1 >= args.len() {
            Err(missing_value(a))
        } else {
            let v = args[i + 1];
            if a == "--kind"@ {
                if v == "exec"@ {
                    result_scan(args, i + 2, ResultScan { kind: BrowserTuiResultKind::Exec, stdout: st.stdout, stderr: st.stderr, exit_code: st.exit_code })
                } else if v == "shell"@ {
                    result_scan(args, i + 2, ResultScan { kind: BrowserTuiResultKind::Shell, stdout: st.stdout, stderr: st.stderr, exit_code: st.exit_code })
                } else {
                    Err("error: unsupported browser TUI result kind '"@ + v + "'\n"@)
                }
            } else if a == "--stdout"@ {
                result_scan(args, i + 2, ResultScan { kind: st.kind, stdout: v, stderr: st.stderr, exit_code: st.exit_code })
            } else if a == "--stderr"@ {
                result_scan(args, i + 2, ResultScan { kind: st.kind, stdout: st.stdout, stderr: v, exit_code: st.exit_code })
            } else {
                match parse_i32_spec(v) {
                    Some(code) => result_scan(args, i + 2, ResultScan { kind: st.kind, stdout: st.stdout, stderr: st.stderr, exit_code: code }),
                    None => Err("error: --exit-code must be an integer\n"@),
                }
            }
        }
    }
}

pub open spec fn result_scan_start() -> ResultScan {
    ResultScan { kind: BrowserTuiResultKind::Exec, stdout: Seq::empty(), stderr: Seq::empty(), exit_code: 0 }
}

pub open spec fn append_result_view(r: BrowserTuiAppendResult) -> ResultScan {
    ResultScan { kind: r.kind, stdout: r.stdout@, stderr: r.stderr@, exit_code: r.exit_code }
}

pub open spec fn result_spec(args: Seq<Seq<char>>) -> Result<ResultScan, Seq<char>> {
    result_scan(args, 0, result_scan_start())
}

pub fn parse_browser_tui_result_args(args: Vec<String>) -> (r: Result<BrowserTuiAppendResult, String>)
    ensures
        match r {
            Ok(res) => result_spec(string_views(args@)) == Ok::<ResultScan, Seq<char>>(
                append_result_view(res),
            ),
            Err(m) => result_spec(string_views(args@)) == Err::<ResultScan, Seq<char>>(m@),
        },
{
    let ghost av = string_views(args@);
    let mut kind = BrowserTuiResultKind::Exec;
    let mut stdout = String::new();
    let mut stderr = String::new();
    let mut exit_code: i32 = 0;
    let mut index: usize = 0;
    while index < args.len()
        invariant
            av == string_views(args@),
            index <= args.len(),
            result_scan(av, 0, result_scan_start()) == result_scan(
                av,
                index as int,
                ResultScan { kind, stdout: stdout@, stderr: stderr@, exit_code },
            ),
        decreases args.len() - index,
    {
        let arg: &str = args[index].as_str();
        assert(arg@ == av[index as int]);
        let is_kind = str_eq(arg, "--kind");
        let is_stdout = str_eq(arg, "--stdout");
        let is_stderr = str_eq(arg, "--stderr");
        let is_exit = str_eq(arg, "--exit-code");
        if !is_kind && !is_stdout && !is_stderr && !is_exit {
            return Err(cat3("error: unsupported browser TUI result option '", arg, "'\n"));
        }
        if index + 1 >= args.len() {
            return Err(cat3("error: a value is required for '", arg, "'\n"));
        }
        let value: &str = args[index + 1].as_str();
        assert(value@ == av[index + 1]);
        if is_kind {
            if str_eq(value, "exec") {
                kind = BrowserTuiResultKind::Exec;
            } else if str_eq(value, "shell") {
                kind = BrowserTuiResultKind::Shell;
            } else {
                return Err(cat3("error: unsupported browser TUI result kind '", value, "'\n"));
            }
        } else if is_stdout {
            stdout = owned(value);
        } else if is_stderr {
            stderr = owned(value);
        } else {
            match parse_i32(value) {
                Some(code) => {
                    exit_code = code;
                },
                None => {
                    return Err(owned("error: --exit-code must be an integer\n"));
                },
            }
        }
        index = index + 2;
    }
    Ok(BrowserTuiAppendResult { kind, stdout, stderr, exit_code })
}

/// The last `flag <value>` of a command that takes that one option only,
/// which is required.
pub open spec fn single_option_scan(
    args: Seq<Seq<char>>,
    i: int,
    flag: Seq<char>,
    what: Seq<char>,
    value: Option<Seq<char>>,
) -> Result<Seq<char>, Seq<char>>
    decreases args.len() - i,
{
    if i < 0 || i >= args.len() {
        match value {
            Some(v) => Ok(v),
            None => Err(missing_value(flag)),
        }
    } else if args[i] == flag {
        if i + 1 < args.len() {
            single_option_scan(args, i + 2, flag, what, Some(args[i + 1]))
        } else {
            Err(missing_value(flag))
        }
    } else {
        Err("error: unsupported browser TUI "@ + what + " option '"@ + args[i] + "'\n"@)
    }
}

fn parse_single_option(args: Vec<String>, flag: &str, what: &str) -> (r: Result<String, String>)
    ensures
        match r {
            Ok(v) => single_option_scan(string_views(args@), 0, flag@, what@, None) == Ok::<
                Seq<char>,
                Seq<char>,
            >(v@),
            Err(m) => single_option_scan(string_views(args@), 0, flag@, what@, None) == Err::<
                Seq<char>,
                Seq<char>,
            >(m@),
        },
{
    let ghost av = string_views(args@);
    let mut value: Option<String> = None;
    let mut index: usize = 0;
    while index < args.len()
        invariant
            av == string_views(args@),
            index <= args.len(),
            single_option_scan(av, 0, flag@, what@, None) == single_option_scan(
                av,
                index as int,
                flag@,
                what@,
                opt_view(value),
            ),
        decreases args.len() - index,
    {
        let arg: &str = args[index].as_str();
        assert(arg@ == av[index as int]);
        if str_eq(arg, flag) {
            if index + 1 >= args.len() {
                return Err(cat3("error: a value is required for '", flag, "'\n"));
            }
            value = Some(clone_string(&args[index + 1]));
            index = index + 2;
        } else {
            let head = cat3("error: unsupported browser TUI ", what, " option '");
            return Err(cat3(head.as_str(), arg, "'\n"));
        }
    }
    match value {
        Some(v) => Ok(v),
        None => Err(cat3("error: a value is required for '", flag, "'\n")),
    }
}

/// The `--text` of `browser-tui-agent-message`.
pub fn parse_browser_tui_agent_message_args(args: Vec<String>) -> (r: Result<String, String>)
    ensures
        match r {
            Ok(v) => single_option_scan(string_views(args@), 0, "--text"@, "agent message"@, None)
                == Ok::<Seq<char>, Seq<char>>(v@),
            Err(m) => single_option_scan(string_views(args@), 0, "--text"@, "agent message"@, None)
                == Err::<Seq<char>, Seq<char>>(m@),
        },
{
    parse_single_option(args, "--text", "agent message")
}

/// The `--json` of `browser-tui-notification`.
pub fn parse_browser_tui_notification_args(args: Vec<String>) -> (r: Result<String, String>)
    ensures
        match r {
            Ok(v) => single_option_scan(string_views(args@), 0, "--json"@, "notification"@, None)
                == Ok::<Seq<char>, Seq<char>>(v@),
            Err(m) => single_option_scan(string_views(args@), 0, "--json"@, "notification"@, None)
                == Err::<Seq<char>, Seq<char>>(m@),
        },
{
    parse_single_option(args, "--json", "notification")
}

// ---------------------------------------------------------------------------
// Plan updates
// ---------------------------------------------------------------------------

pub open spec fn plan_status_spec(value: Seq<char>) -> Result<StepStatus, Seq<char>> {
    let v = trim_seq(value);
    if v == "pending"@ {
        Ok(StepStatus::Pending)
    } else if v == "in_progress"@ || v == "in-progress"@ || v == "inProgress"@ || v == "active"@ {
        Ok(StepStatus::InProgress)
    } else if v == "completed"@ || v == "complete"@ || v == "done"@ {
        Ok(StepStatus::Completed)
    } else {
        Err("error: unsupported browser TUI plan step status '"@ + v + "'\n"@)
    }
}

pub fn parse_browser_tui_plan_status(value: &str) -> (r: Result<StepStatus, String>)
    ensures
        match r {
            Ok(s) => plan_status_spec(value@) == Ok::<StepStatus, Seq<char>>(s),
            Err(m) => plan_status_spec(value@) == Err::<StepStatus, Seq<char>>(m@),
        },
{
    let v = trim(value);
    if str_eq(v, "pending") {
        Ok(StepStatus::Pending)
    } else if str_eq(v, "in_progress") || str_eq(v, "in-progress") || str_eq(v, "inProgress")
        || str_eq(v, "active") {
        Ok(StepStatus::InProgress)
    } else if str_eq(v, "completed") || str_eq(v, "complete") || str_eq(v, "done") {
        Ok(StepStatus::Completed)
    } else {
        Err(cat3("error: unsupported browser TUI plan step status '", v, "'\n"))
    }
}

/// A plan step written `<status>:<text>`.
pub open spec fn plan_step_spec(value: Seq<char>) -> Result<(Seq<char>, StepStatus), Seq<char>> {
    match split_once_seq(value, ':') {
        None => Err("error: --step must be formatted as <status>:<text>\n"@),
        Some((status, step)) => {
            let text = trim_seq(step);
            if text.len() == 0 {
                Err("error: --step text must not be empty\n"@)
            } else {
                match plan_status_spec(status) {
                    Ok(s) => Ok((text, s)),
                    Err(m) => Err(m),
                }
            }
        },
    }
}

pub fn parse_browser_tui_plan_step(value: &str) -> (r: Result<PlanItemArg, String>)
    ensures
        match r {
            Ok(item) => plan_step_spec(value@) == Ok::<(Seq<char>, StepStatus), Seq<char>>(
                (item.step@, item.status),
            ),
            Err(m) => plan_step_spec(value@) == Err::<(Seq<char>, StepStatus), Seq<char>>(m@),
        },
{
    let (status, step) = match split_once(value, ':') {
        Some(p) => p,
        None => {
            return Err(owned("error: --step must be formatted as <status>:<text>\n"));
        },
    };
    let step = trim(step);
    if step.unicode_len() == 0 {
        return Err(owned("error: --step text must not be empty\n"));
    }
    match parse_browser_tui_plan_status(status) {
        Ok(s) => Ok(PlanItemArg { step: owned(step), status: s }),
        Err(m) => Err(m),
    }
}

pub open spec fn plan_scan(
    args: Seq<Seq<char>>,
    i: int,
    explanation: Option<Seq<char>>,
    plan: Seq<(Seq<char>, StepStatus)>,
) -> Result<(Option<Seq<char>>, Seq<(Seq<char>, StepStatus)>), Seq<char>>
    decreases args.len() - i,
{
    if i < 0 || i >= args.len() {
        Ok((explanation, plan))
    } else {
        let a = args[i];
        if a == "--explanation"@ {
            if i + 1 < args.len() {
                plan_scan(args, i + 2, Some(args[i + 1]), plan)
            } else {
                Err(missing_value(a))
            }
        } else if a == "--step"@ {
            if i + 1 < args.len() {
                match plan_step_spec(args[i + 1]) {
                    Ok(item) => plan_scan(args, i + 2, explanation, plan.push(item)),
                    Err(m) => Err(m),
                }
            } else {
                Err(missing_value(a))
            }
        } else {
            Err("error: unsupported browser TUI plan update option '"@ + a + "'\n"@)
        }
    }
}

pub open spec fn plan_items_view(v: Seq<PlanItemArg>) -> Seq<(Seq<char>, StepStatus)> {
    v.map_values(|p: PlanItemArg| (p.step@, p.status))
}

pub open spec fn plan_update_view(u: UpdatePlanArgs) -> (Option<Seq<char>>, Seq<(Seq<char>, StepStatus)>) {
    (opt_view(u.explanation), plan_items_view(u.plan@))
}

pub open spec fn plan_update_spec(args: Seq<Seq<char>>) -> Result<
    (Option<Seq<char>>, Seq<(Seq<char>, StepStatus)>),
    Seq<char>,
> {
    plan_scan(args, 0, None, Seq::empty())
}

pub fn parse_browser_tui_plan_update_args(args: Vec<String>) -> (r: Result<UpdatePlanArgs, String>)
    ensures
        match r {
            Ok(u) => plan_update_spec(string_views(args@)) == Ok::<
                (Option<Seq<char>>, Seq<(Seq<char>, StepStatus)>),
                Seq<char>,
            >(plan_update_view(u)),
            Err(m) => plan_update_spec(string_views(args@)) == Err::<
                (Option<Seq<char>>, Seq<(Seq<char>, StepStatus)>),
                Seq<char>,
            >(m@),
        },
{
    let ghost av = string_views(args@);
    let mut explanation: Option<String> = None;
    let mut plan: Vec<PlanItemArg> = Vec::new();
    let mut index: usize = 0;
    assert(plan_items_view(plan@) =~= Seq::<(Seq<char>, StepStatus)>::empty());
    while index < args.len()
        invariant
            av == string_views(args@),
            index <= args.len(),
            plan_scan(av, 0, None, Seq::empty()) == plan_scan(
                av,
                index as int,
                opt_view(explanation),
                plan_items_view(plan@),
            ),
        decreases args.len() - index,
    {
        let arg: &str = args[index].as_str();
        assert(arg@ == av[index as int]);
        if str_eq(arg, "--explanation") {
            if index + 1 >= args.len() {
                return Err(cat3("error: a value is required for '", arg, "'\n"));
            }
            explanation = Some(clone_string(&args[index + 1]));
            index = index + 2;
        } else if str_eq(arg, "--step") {
            if index + 1 >= args.len() {
                return Err(cat3("error: a value is required for '", arg, "'\n"));
            }
            let value: &str = args[index + 1].as_str();
            assert(value@ == av[index + 1]);
            match parse_browser_tui_plan_step(value) {
                Ok(item) => {
                    let ghost before = plan_items_view(plan@);
                    let ghost iv = (item.step@, item.status);
                    plan.push(item);
                    assert(plan_items_view(plan@) =~= before.push(iv));
                },
                Err(m) => {
                    return Err(m);
                },
            }
            index = index + 2;
        } else {
            return Err(cat3("error: unsupported browser TUI plan update option '", arg, "'\n"));
        }
    }
    Ok(UpdatePlanArgs { explanation, plan })
}

// ---------------------------------------------------------------------------
// Frames rendered on request
// ---------------------------------------------------------------------------

/// The renderer's defaults for a frame.
#[derive(Debug, Clone)]
pub struct BrowserTuiFrameDefaults {
    pub width: u16,
    pub height: u16,
    pub version: Option<String>,
    pub model: String,
}

/// What one frame shows, as read from `debug browser-tui-frame`. The status is
/// kept as given (the last `--status`), for the renderer to read.
#[derive(Debug, Clone)]
pub struct BrowserTuiFrameArgs {
    pub width: u16,
    pub height: u16,
    pub version: Option<String>,
    pub model: String,
    pub directory: String,
    pub input: String,
    pub placeholder: Option<String>,
    pub status: Option<String>,
    pub transcript: Vec<String>,
}

#[verifier::ext_equal]
pub struct FrameScan {
    pub width: u16,
    pub height: u16,
    pub version: Option<Seq<char>>,
    pub model: Seq<char>,
    pub directory: Seq<char>,
    pub input: Seq<char>,
    pub placeholder: Option<Seq<char>>,
    pub status: Option<Seq<char>>,
    pub transcript: Seq<Seq<char>>,
}

pub open spec fn frame_scan_start(d: BrowserTuiFrameDefaults, cwd: Option<Seq<char>>) -> FrameScan {
    FrameScan {
        width: d.width,
        height: d.height,
        version: opt_view(d.version),
        model: d.model@,
        directory: match cwd {
            Some(c) => c,
            None => "~"@,
        },
        input: Seq::empty(),
        placeholder: Some("Explain this code base to me"@),
        status: None,
        transcript: Seq::empty(),
    }
}

pub open spec fn requires_value(flag: Seq<char>) -> Seq<char> {
    flag + " requires a value\n"@
}

/// What `parse_dimension` makes of the value after `name`.
pub open spec fn dimension_spec(name: Seq<char>, value: Option<Seq<char>>) -> Result<u16, Seq<char>> {
    match value {
        None => Err(requires_value(name)),
        Some(v) => match parse_u16_spec(v) {
            Some(d) => Ok(d),
            None => Err(name + " must be an integer\n"@),
        },
    }
}

pub fn parse_dimension(name: &str, value: Option<&str>) -> (r: Result<u16, String>)
    ensures
        match r {
            Ok(d) => dimension_spec(name@, match value {
                Some(v) => Some(v@),
                None => None,
            }) == Ok::<u16, Seq<char>>(d),
            Err(m) => dimension_spec(name@, match value {
                Some(v) => Some(v@),
                None => None,
            }) == Err::<u16, Seq<char>>(m@),
        },
{
    match value {
        None => Err(crate::browser_cli::cat2(name, " requires a value\n")),
        Some(v) => match parse_u16(v) {
            Some(d) => Ok(d),
            None => Err(crate::browser_cli::cat2(name, " must be an integer\n")),
        },
    }
}

pub open spec fn frame_scan(args: Seq<Seq<char>>, i: int, st: FrameScan) -> Result<FrameScan, Seq<char>>
    decreases args.len() - i,
{
    if i < 0 || i >= args.len() {
        Ok(st)
    } else {
        let a = args[i];
        let next: Option<Seq<char>> = if i + 1 < args.len() {
            Some(args[i + 1])
        } else {
            None
        };
        if a == "--width"@ || a == "--height"@ {
            match dimension_spec(a, next) {
                Ok(d) => frame_scan(
                    args,
                    i + 2,
                    if a == "--width"@ {
                        FrameScan { width: d, ..st }
                    } else {
                        FrameScan { height: d, ..st }
                    },
                ),
                Err(m) => Err(m),
            }
        } else if a == "--model"@ || a == "--version"@ || a == "--directory"@ || a == "--cwd"@
            || a == "--input"@ || a == "--placeholder"@ || a == "--status"@ || a
            == "--transcript"@ {
            match next {
                None => Err(requires_value(
                    if a == "--cwd"@ {
                        "--directory"@
                    } else {
                        a
                    },
                )),
                Some(v) => frame_scan(
                    args,
                    i + 2,
                    if a == "--model"@ {
                        FrameScan { model: v, ..st }
                    } else if a == "--version"@ {
                        FrameScan {
                            version: if v.len() > 0 && v != "0.0.0"@ {
                                Some(v)
                            } else {
                                None
                            },
                            ..st
                        }
                    } else if a == "--directory"@ || a == "--cwd"@ {
                        FrameScan { directory: v, ..st }
                    } else if a == "--input"@ {
                        FrameScan { input: v, ..st }
                    } else if a == "--placeholder"@ {
                        FrameScan {
                            placeholder: if v.len() > 0 {
                                Some(v)
                            } else {
                                None
                            },
                            ..st
                        }
                    } else if a == "--status"@ {
                        FrameScan { status: Some(v), ..st }
                    } else {
                        FrameScan { transcript: st.transcript.push(v), ..st }
                    },
                ),
            }
        } else {
            Err("unrecognized browser TUI frame argument: "@ + a + "\n"@)
        }
    }
}

pub open spec fn clamp_u16(v: u16, lo: u16, hi: u16) -> u16 {
    if v < lo {
        lo
    } else if v > hi {
        hi
    } else {
        v
    }
}

pub fn clamp(v: u16, lo: u16, hi: u16) -> (r: u16)
    requires
        lo <= hi,
    ensures
        r == clamp_u16(v, lo, hi),
{
    if v < lo {
        lo
    } else if v > hi {
        hi
    } else {
        v
    }
}

/// The frame that `args` describe, the dimensions clamped to 40..=240 columns
/// and 12..=80 rows.
pub open spec fn frame_is(f: BrowserTuiFrameArgs, st: FrameScan) -> bool {
    &&& f.width == clamp_u16(st.width, 40, 240)
    &&& f.height == clamp_u16(st.height, 12, 80)
    &&& opt_view(f.version) == st.version
    &&& f.model@ == st.model
    &&& f.directory@ == st.directory
    &&& f.input@ == st.input
    &&& opt_view(f.placeholder) == st.placeholder
    &&& opt_view(f.status) == st.status
    &&& string_views(f.transcript@) == st.transcript
}

#[verifier::loop_isolation(false)]
pub fn browser_tui_frame_from_args(
    args: Vec<String>,
    cwd: Option<String>,
    defaults: BrowserTuiFrameDefaults,
) -> (r: Result<BrowserTuiFrameArgs, String>)
    ensures
        match frame_scan(string_views(args@), 0, frame_scan_start(defaults, opt_view(cwd))) {
            Ok(st) => r matches Ok(f) && frame_is(f, st),
            Err(m) => r matches Err(e) && e@ == m,
        },
{
    let ghost av = string_views(args@);
    let ghost start = frame_scan_start(defaults, opt_view(cwd));
    let mut width = defaults.width;
    let mut height = defaults.height;
    let mut version = defaults.version;
    let mut model = defaults.model;
    let mut directory = match cwd {
        Some(c) => c,
        None => owned("~"),
    };
    let mut input = String::new();
    let mut placeholder = Some(owned("Explain this code base to me"));
    let mut status: Option<String> = None;
    let mut transcript: Vec<String> = Vec::new();
    assert(string_views(transcript@) =~= Seq::<Seq<char>>::empty());
    let mut index: usize = 0;
    while index < args.len()
        invariant
            av == string_views(args@),
            index <= args.len(),
            frame_scan(av, 0, start) == frame_scan(
                av,
                index as int,
                FrameScan {
                    width,
                    height,
                    version: opt_view(version),
                    model: model@,
                    directory: directory@,
                    input: input@,
                    placeholder: opt_view(placeholder),
                    status: opt_view(status),
                    transcript: string_views(transcript@),
                },
            ),
        decreases args.len() - index,
    {
        let ghost cur = FrameScan {
            width,
            height,
            version: opt_view(version),
            model: model@,
            directory: directory@,
            input: input@,
            placeholder: opt_view(placeholder),
            status: opt_view(status),
            transcript: string_views(transcript@),
        };
        let arg: &str = args[index].as_str();
        assert(arg@ == av[index as int]);
        let has_next = index + 1 < args.len();
        let next: Option<&str> = if has_next {
            Some(args[index + 1].as_str())
        } else {
            None
        };
        let ghost next_view: Option<Seq<char>> = if has_next {
            Some(av[index + 1])
        } else {
            None
        };
        assert(match next {
            Some(v) => Some(v@),
            None => None,
        } == next_view);
        if str_eq(arg, "--width") || str_eq(arg, "--height") {
            let d = match parse_dimension(arg, next) {
                Ok(d) => d,
                Err(m) => {
                    return Err(m);
                },
            };
            if str_eq(arg, "--width") {
                width = d;
            } else {
                height = d;
            }
        } else if str_eq(arg, "--model") || str_eq(arg, "--version") || str_eq(arg, "--directory")
            || str_eq(arg, "--cwd") || str_eq(arg, "--input") || str_eq(arg, "--placeholder")
            || str_eq(arg, "--status") || str_eq(arg, "--transcript") {
            if !has_next {
                if str_eq(arg, "--cwd") {
                    return Err(crate::browser_cli::cat2("--directory", " requires a value\n"));
                }
                return Err(crate::browser_cli::cat2(arg, " requires a value\n"));
            }
            let v = clone_string(&args[index + 1]);
            if str_eq(arg, "--model") {
                model = v;
            } else if str_eq(arg, "--version") {
                version = if v.as_str().unicode_len() > 0 && !str_eq(v.as_str(), "0.0.0") {
                    Some(v)
                } else {
                    None
                };
            } else if str_eq(arg, "--directory") || str_eq(arg, "--cwd") {
                directory = v;
            } else if str_eq(arg, "--input") {
                input = v;
            } else if str_eq(arg, "--placeholder") {
                placeholder = if v.as_str().unicode_len() > 0 {
                    Some(v)
                } else {
                    None
                };
            } else if str_eq(arg, "--status") {
                status = Some(v);
            } else {
                let ghost before = string_views(transcript@);
                let ghost vv = v@;
                transcript.push(v);
                assert(string_views(transcript@) =~= before.push(vv));
            }
        } else {
            let m = cat3("unrecognized browser TUI frame argument: ", arg, "\n");
            return Err(m);
        }
        index = index + 2;
    }
    Ok(BrowserTuiFrameArgs {
        width: clamp(width, 40, 240),
        height: clamp(height, 12, 80),
        version,
        model,
        directory,
        input,
        placeholder,
        status,
        transcript,
    })
}

} // verus!
