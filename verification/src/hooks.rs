use vstd::prelude::*;

use crate::text::owned;

verus! {

// ---------------------------------------------------------------------------
// Hook commands in the browser
// ---------------------------------------------------------------------------

/// What running a hook command produced. Times are seconds since the Unix
/// epoch.
#[derive(Debug)]
pub struct CommandRunResult {
    pub started_at: i64,
    pub completed_at: i64,
    pub duration_ms: i64,
    pub exit_code: Option<i32>,
    pub stdout: String,
    pub stderr: String,
    pub error: Option<String>,
}

/// The current time in seconds since the Unix epoch
/// (`chrono::Utc::now().timestamp()`); nothing is claimed of the value, which
/// is the clock's.
#[verifier::external_body]
fn now_seconds() -> (r: i64) {
    chrono::Utc::now().timestamp()
}

pub open spec fn hook_unsupported_text() -> Seq<char> {
    "browser hook execution requires an almostnode host process shim"@
}

/// Hook commands cannot run without a host process: the result says so,
/// started and completed at the same moment, with no output or exit code.
pub fn run_command(input_json: &str, cwd: &str) -> (r: CommandRunResult)
    ensures
        r.started_at == r.completed_at,
        r.duration_ms == 0,
        r.exit_code is None,
        r.stdout@.len() == 0,
        r.stderr@.len() == 0,
        r.error matches Some(e) && e@ == hook_unsupported_text(),
{
    let now = now_seconds();
    CommandRunResult {
        started_at: now,
        completed_at: now,
        duration_ms: 0,
        exit_code: None,
        stdout: String::new(),
        stderr: String::new(),
        error: Some(owned("browser hook execution requires an almostnode host process shim")),
    }
}

// ---------------------------------------------------------------------------
// Limits on hook output
// ---------------------------------------------------------------------------

pub open spec fn default_hook_output_token_limit() -> int {
    2500
}

/// How many tokens of additional context a hook may add.
#[derive(Debug, Clone, Copy, PartialEq, Eq, Structural)]
pub struct AdditionalContextLimit {
    pub token_limit: usize,
}

impl AdditionalContextLimit {
    /// The configured limit, else the default of 2500 tokens.
    pub fn from_config(value: Option<usize>) -> (r: Self)
        ensures
            r.token_limit == match value {
                Some(v) => v as int,
                None => default_hook_output_token_limit(),
            },
    {
        match value {
            Some(v) => AdditionalContextLimit { token_limit: v },
            None => AdditionalContextLimit { token_limit: 2500 },
        }
    }

    /// Whether text of about `approx_tokens` tokens must be cut down: a limit
    /// of zero means no limit.
    pub fn needs_truncation(&self, approx_tokens: usize) -> (r: bool)
        ensures
            r == (self.token_limit != 0 && approx_tokens > self.token_limit),
    {
        self.token_limit != 0 && approx_tokens > self.token_limit
    }
}

impl Default for AdditionalContextLimit {
    fn default() -> (r: Self)
        ensures
            r.token_limit == default_hook_output_token_limit(),
    {
        AdditionalContextLimit::from_config(None)
    }
}

/// Keeps hook output within its limit; the browser keeps no spill files.
#[derive(Debug, Clone, Copy)]
pub struct HookOutputSpiller;

impl HookOutputSpiller {
    pub fn new() -> (r: Self) {
        HookOutputSpiller
    }
}

} // verus!
