use vstd::prelude::*;

use crate::browser_cli::cat3;
use crate::browser_cli::clone_string;
use crate::text::decimal_seq;
use crate::text::digit_char;
use crate::text::owned;
use crate::text::u64_to_decimal;

verus! {

/// The message of every code-mode run in the browser build.
pub open spec fn unavailable_text() -> Seq<char> {
    "browser code-mode execution requires an almostnode host runtime shim"@
}

/// The id of an execution cell.
#[derive(Clone, Debug, PartialEq, Eq, Hash)]
pub struct CellId(String);

impl View for CellId {
    type V = Seq<char>;

    closed spec fn view(&self) -> Seq<char> {
        self.0@
    }
}

impl CellId {
    pub fn new(value: String) -> (r: CellId)
        ensures
            r@ == value@,
    {
        CellId(value)
    }

    pub fn as_str(&self) -> (r: &str)
        ensures
            r@ == self@,
    {
        self.0.as_str()
    }

    /// The id as it is displayed.
    pub fn to_display_string(&self) -> (r: String)
        ensures
            r@ == self@,
    {
        clone_string(&self.0)
    }
}

fn clone_cell_id(c: &CellId) -> (r: CellId)
    ensures
        r@ == c@,
{
    CellId(clone_string(&c.0))
}

/// One piece of a tool call's output.
#[derive(Debug, Clone, PartialEq, Eq)]
pub enum FunctionCallOutputContentItem {
    InputText { text: String },
}

#[derive(Debug, PartialEq, Eq)]
pub enum RuntimeResponse {
    Yielded { cell_id: CellId, content_items: Vec<FunctionCallOutputContentItem> },
    Terminated { cell_id: CellId, content_items: Vec<FunctionCallOutputContentItem> },
    Result {
        cell_id: CellId,
        content_items: Vec<FunctionCallOutputContentItem>,
        error_text: Option<String>,
    },
}

#[derive(Debug, PartialEq, Eq)]
pub enum WaitOutcome {
    LiveCell(RuntimeResponse),
    MissingCell(RuntimeResponse),
}

impl WaitOutcome {
    /// The response either way (`From<WaitOutcome> for RuntimeResponse`).
    pub fn into_response(self) -> (r: RuntimeResponse)
        ensures
            match self {
                WaitOutcome::LiveCell(x) => r == x,
                WaitOutcome::MissingCell(x) => r == x,
            },
    {
        match self {
            WaitOutcome::LiveCell(response) => response,
            WaitOutcome::MissingCell(response) => response,
        }
    }
}

#[derive(Debug, PartialEq, Eq)]
pub enum ExecuteToPendingOutcome {
    Pending {
        cell_id: CellId,
        content_items: Vec<FunctionCallOutputContentItem>,
        pending_tool_call_ids: Vec<String>,
    },
    Completed(RuntimeResponse),
}

#[derive(Debug, PartialEq, Eq)]
pub enum WaitToPendingOutcome {
    LiveCell(ExecuteToPendingOutcome),
    MissingCell(RuntimeResponse),
}

#[derive(Clone, Debug)]
pub struct ExecuteRequest {
    pub tool_call_id: String,
    pub source: String,
    pub yield_time_ms: Option<u64>,
    pub max_output_tokens: Option<usize>,
}

#[derive(Clone, Debug)]
pub struct WaitRequest {
    pub cell_id: CellId,
    pub yield_time_ms: u64,
}

#[derive(Clone, Debug)]
pub struct WaitToPendingRequest {
    pub cell_id: CellId,
}

/// The answer to running code in a cell: code mode is unavailable.
pub open spec fn is_unavailable_response(r: RuntimeResponse, cell: Seq<char>) -> bool {
    r matches RuntimeResponse::Result { cell_id, content_items, error_text } && cell_id@ == cell
        && content_items@.len() == 1 && (content_items@[0] matches FunctionCallOutputContentItem::InputText { text } && text@ == unavailable_text())
        && (error_text matches Some(e) && e@ == unavailable_text())
}

/// The answer about a cell that does not exist.
pub open spec fn is_missing_cell_response(r: RuntimeResponse, cell: Seq<char>) -> bool {
    r matches RuntimeResponse::Result { cell_id, content_items, error_text } && cell_id@ == cell
        && content_items@.len() == 0 && (error_text matches Some(e) && e@ == "exec cell "@ + cell
        + " not found"@)
}

pub fn unavailable_response(cell_id: CellId) -> (r: RuntimeResponse)
    ensures
        is_unavailable_response(r, cell_id@),
{
    let ghost c = cell_id@;
    let items = vec![
        FunctionCallOutputContentItem::InputText {
            text: owned("browser code-mode execution requires an almostnode host runtime shim"),
        },
    ];
    RuntimeResponse::Result {
        cell_id,
        content_items: items,
        error_text: Some(owned("browser code-mode execution requires an almostnode host runtime shim")),
    }
}

pub fn missing_cell_response(cell_id: CellId) -> (r: RuntimeResponse)
    ensures
        is_missing_cell_response(r, cell_id@),
{
    let error = cat3("exec cell ", cell_id.as_str(), " not found");
    RuntimeResponse::Result { error_text: Some(error), cell_id, content_items: Vec::new() }
}

/// A cell that started running, with its first response.
pub struct StartedCell {
    pub cell_id: CellId,
    initial_response: RuntimeResponse,
}

impl StartedCell {
    pub closed spec fn initial(&self) -> RuntimeResponse {
        self.initial_response
    }

    pub closed spec fn cell(&self) -> Seq<char> {
        self.cell_id@
    }

    pub fn initial_response(self) -> (r: Result<RuntimeResponse, String>)
        ensures
            r == Ok::<RuntimeResponse, String>(self.initial()),
    {
        Ok(self.initial_response)
    }
}

#[derive(Clone, Copy, Debug, Eq, PartialEq, Structural)]
pub enum V8JitMode {
    Enabled,
    Disabled,
}

/// The browser build has no V8.
pub fn initialize_v8(jit_mode: V8JitMode) -> (r: Result<(), String>)
    ensures
        r matches Err(m) && m@ == unavailable_text(),
{
    Err(owned("browser code-mode execution requires an almostnode host runtime shim"))
}

/// The delegate that serves no nested tools.
pub struct NoopCodeModeSessionDelegate {}

impl NoopCodeModeSessionDelegate {
    /// Nested tools are refused (once the call is cancelled).
    pub fn invoke_tool(&self) -> (r: Result<(), String>)
        ensures
            r matches Err(m) && m@ == "code mode nested tools are unavailable"@,
    {
        Err(owned("code mode nested tools are unavailable"))
    }

    pub fn notify(&self, call_id: String, cell_id: CellId, text: String) -> (r: Result<(), String>)
        ensures
            r is Ok,
    {
        Ok(())
    }

    pub fn cell_closed(&self, cell_id: &CellId) {
    }
}

/// A code-mode session in this process: it hands out cell ids and answers
/// every run as unavailable.
pub struct InProcessCodeModeSession {
    next_cell_id: u64,
}

/// The code-mode service is the in-process session.
pub type CodeModeService = InProcessCodeModeSession;

impl InProcessCodeModeSession {
    /// The number of the next cell.
    pub closed spec fn next_id(&self) -> u64 {
        self.next_cell_id
    }

    pub fn new() -> (s: InProcessCodeModeSession)
        ensures
            s.next_id() == 1,
    {
        InProcessCodeModeSession { next_cell_id: 1 }
    }

    pub fn with_delegate(delegate: NoopCodeModeSessionDelegate) -> (s: InProcessCodeModeSession)
        ensures
            s.next_id() == 1,
    {
        InProcessCodeModeSession { next_cell_id: 1 }
    }

    /// A fresh cell id: the decimal text of a counter that starts at 1.
    pub fn allocate_cell_id(&mut self) -> (c: CellId)
        ensures
            c@ == decimal_seq(old(self).next_id() as nat),
            final(self).next_id() == (if old(self).next_id() == u64::MAX {
                0
            } else {
                old(self).next_id() + 1
            }),
    {
        let id = self.next_cell_id;
        self.next_cell_id = self.next_cell_id.wrapping_add(1);
        CellId::new(u64_to_decimal(id))
    }

    pub fn execute(&mut self, request: ExecuteRequest) -> (r: Result<StartedCell, String>)
        ensures
            r matches Ok(c) && c.cell() == decimal_seq(old(self).next_id() as nat)
                && is_unavailable_response(c.initial(), c.cell()),
            final(self).next_id() == (if old(self).next_id() == u64::MAX {
                0
            } else {
                old(self).next_id() + 1
            }),
    {
        let cell_id = self.allocate_cell_id();
        let response = unavailable_response(clone_cell_id(&cell_id));
        Ok(StartedCell { cell_id, initial_response: response })
    }

    pub fn execute_to_pending(&mut self, request: ExecuteRequest) -> (r: Result<ExecuteToPendingOutcome, String>)
        ensures
            r matches Ok(ExecuteToPendingOutcome::Completed(resp)) && is_unavailable_response(
                resp,
                decimal_seq(old(self).next_id() as nat),
            ),
            final(self).next_id() == (if old(self).next_id() == u64::MAX {
                0
            } else {
                old(self).next_id() + 1
            }),
    {
        let cell_id = self.allocate_cell_id();
        Ok(ExecuteToPendingOutcome::Completed(unavailable_response(cell_id)))
    }

    /// No cell keeps running in the browser build, so every cell is missing.
    pub fn wait(&self, request: WaitRequest) -> (r: Result<WaitOutcome, String>)
        ensures
            r matches Ok(WaitOutcome::MissingCell(resp)) && is_missing_cell_response(
                resp,
                request.cell_id@,
            ),
    {
        Ok(WaitOutcome::MissingCell(missing_cell_response(request.cell_id)))
    }

    pub fn terminate(&self, cell_id: CellId) -> (r: Result<WaitOutcome, String>)
        ensures
            r matches Ok(WaitOutcome::MissingCell(resp)) && is_missing_cell_response(resp, cell_id@),
    {
        Ok(WaitOutcome::MissingCell(missing_cell_response(cell_id)))
    }

    pub fn wait_to_pending(&self, request: WaitToPendingRequest) -> (r: Result<WaitToPendingOutcome, String>)
        ensures
            r matches Ok(WaitToPendingOutcome::MissingCell(resp)) && is_missing_cell_response(
                resp,
                request.cell_id@,
            ),
    {
        Ok(WaitToPendingOutcome::MissingCell(missing_cell_response(request.cell_id)))
    }

    pub fn shutdown(&self) -> (r: Result<(), String>)
        ensures
            r is Ok,
    {
        Ok(())
    }
}

/// Opens in-process sessions.
pub struct InProcessCodeModeSessionProvider {}

impl InProcessCodeModeSessionProvider {
    pub fn create_session(&self, delegate: NoopCodeModeSessionDelegate) -> (r: Result<InProcessCodeModeSession, String>)
        ensures
            r matches Ok(s) && s.next_id() == 1,
    {
        Ok(InProcessCodeModeSession::with_delegate(delegate))
    }
}

/// Opens sessions in a helper process; the browser build opens them in
/// process instead.
pub struct ProcessOwnedCodeModeSessionProvider {}

impl ProcessOwnedCodeModeSessionProvider {
    pub fn with_host_program(host_program: String) -> (r: ProcessOwnedCodeModeSessionProvider) {
        ProcessOwnedCodeModeSessionProvider {}
    }

    pub fn create_session(&self, delegate: NoopCodeModeSessionDelegate) -> (r: Result<InProcessCodeModeSession, String>)
        ensures
            r matches Ok(s) && s.next_id() == 1,
    {
        Ok(InProcessCodeModeSession::with_delegate(delegate))
    }
}

// ---------------------------------------------------------------------------
// Laws
// ---------------------------------------------------------------------------

pub proof fn lemma_digit_char(d: int)
    requires
        0 <= d < 10,
    ensures
        digit_char(d) as int == d + 48,
{
}

pub proof fn lemma_decimal_len(n: nat)
    ensures
        decimal_seq(n).len() >= 1,
        n < 10 <==> decimal_seq(n).len() == 1,
    decreases n,
{
    if n >= 10 {
        lemma_decimal_len(n / 10);
    }
}

/// Different numbers have different decimal texts, so the cell ids that one
/// session hands out are all different as long as its counter does not wrap.
pub proof fn law_decimal_injective(a: nat, b: nat)
    requires
        decimal_seq(a) == decimal_seq(b),
    ensures
        a == b,
    decreases a,
{
    lemma_decimal_len(a);
    lemma_decimal_len(b);
    if a < 10 {
        assert(b < 10);
        assert(decimal_seq(a)[0] == digit_char(a as int));
        assert(decimal_seq(b)[0] == digit_char(b as int));
        lemma_digit_char(a as int);
        lemma_digit_char(b as int);
    } else {
        assert(b >= 10);
        let (da, db) = (decimal_seq(a / 10), decimal_seq(b / 10));
        assert(decimal_seq(a).drop_last() =~= da);
        assert(decimal_seq(b).drop_last() =~= db);
        law_decimal_injective(a / 10, b / 10);
        assert(decimal_seq(a).last() == decimal_seq(b).last());
        assert(decimal_seq(a).last() == digit_char((a % 10) as int));
        assert(decimal_seq(b).last() == digit_char((b % 10) as int));
        lemma_digit_char((a % 10) as int);
        lemma_digit_char((b % 10) as int);
        assert(a % 10 == b % 10);
        assert(a / 10 == b / 10);
    }
}

} // verus!
