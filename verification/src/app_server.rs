use vstd::prelude::*;

use crate::browser_cli::clone_string;
use crate::browser_cli::clone_strings;
use crate::text::owned;
use crate::text::string_views;

verus! {

// ---------------------------------------------------------------------------
// App-server surface of the browser build: there is no in-process runtime
// and no remote transport yet, so every call that would reach one fails
// with an "unsupported" error whose message says which.
// ---------------------------------------------------------------------------

/// An operation the browser host does not support, with its explanation.
#[derive(Debug, Clone)]
pub struct Unsupported {
    pub message: String,
}

pub open spec fn in_process_unsupported_text() -> Seq<char> {
    "in-process app-server runtime is not wired to the wasm host yet"@
}

pub open spec fn remote_unsupported_text() -> Seq<char> {
    "remote app-server websocket and Unix socket transports are native-only on wasm32"@
}

fn unsupported_in_process_runtime() -> (r: Unsupported)
    ensures
        r.message@ == in_process_unsupported_text(),
{
    Unsupported { message: owned("in-process app-server runtime is not wired to the wasm host yet") }
}

fn unsupported_remote_transport() -> (r: Unsupported)
    ensures
        r.message@ == remote_unsupported_text(),
{
    Unsupported {
        message: owned(
            "remote app-server websocket and Unix socket transports are native-only on wasm32",
        ),
    }
}

#[derive(Debug, Clone, Copy, PartialEq, Eq, Structural)]
pub struct WasmAppServer;

impl WasmAppServer {
    pub fn new() -> (r: Self) {
        WasmAppServer
    }
}

#[derive(Debug, Clone, Copy)]
pub struct LogDbLayer;

#[derive(Debug, Clone, Copy)]
pub struct InProcessClientSender;

impl InProcessClientSender {
    /// Notifications cannot be delivered: there is no runtime.
    pub fn notify(&self) -> (r: Result<(), Unsupported>)
        ensures
            r matches Err(e) && e.message@ == in_process_unsupported_text(),
    {
        Err(unsupported_in_process_runtime())
    }
}

pub struct InProcessClientHandle;

impl InProcessClientHandle {
    /// Notifications cannot be delivered: there is no runtime.
    pub fn notify(&self) -> (r: Result<(), Unsupported>)
        ensures
            r matches Err(e) && e.message@ == in_process_unsupported_text(),
    {
        Err(unsupported_in_process_runtime())
    }

    /// No server event ever arrives.
    pub fn next_event(&mut self) -> (r: Option<()>)
        ensures
            r is None,
    {
        None
    }

    /// Shutting down always succeeds.
    pub fn shutdown(self) -> (r: Result<(), Unsupported>)
        ensures
            r is Ok,
    {
        Ok(())
    }

    pub fn sender(&self) -> (r: InProcessClientSender) {
        InProcessClientSender
    }
}

/// Starting the in-process runtime always fails in the browser.
pub fn start_in_process() -> (r: Result<InProcessClientHandle, Unsupported>)
    ensures
        r matches Err(e) && e.message@ == in_process_unsupported_text(),
{
    Err(unsupported_in_process_runtime())
}

// ---------------------------------------------------------------------------
// Remote app-server client
// ---------------------------------------------------------------------------

#[derive(Debug, Clone)]
pub enum RemoteAppServerEndpoint {
    WebSocket { websocket_url: String, auth_token: Option<String> },
    UnixSocket { socket_path: String },
}

#[derive(Debug, Clone)]
pub struct RemoteAppServerConnectArgs {
    pub endpoint: RemoteAppServerEndpoint,
    pub client_name: String,
    pub client_version: String,
    pub experimental_api: bool,
    pub opt_out_notification_methods: Vec<String>,
    pub channel_capacity: usize,
}

#[derive(Debug, Clone)]
pub struct ClientInfo {
    pub name: String,
    pub title: Option<String>,
    pub version: String,
}

#[derive(Debug, Clone)]
pub struct InitializeCapabilities {
    pub experimental_api: bool,
    pub request_attestation: bool,
    pub opt_out_notification_methods: Option<Vec<String>>,
}

#[derive(Debug, Clone)]
pub struct InitializeParams {
    pub client_info: ClientInfo,
    pub capabilities: Option<InitializeCapabilities>,
}

impl RemoteAppServerConnectArgs {
    /// The `initialize` request a client sends: its name and version, no
    /// title, the experimental-API flag, no attestation, and the methods it
    /// opts out of (none listed when the list is empty).
    pub fn initialize_params(&self) -> (r: InitializeParams)
        ensures
            r.client_info.name@ == self.client_name@,
            r.client_info.title is None,
            r.client_info.version@ == self.client_version@,
            r.capabilities matches Some(c) && c.experimental_api == self.experimental_api
                && !c.request_attestation && (if self.opt_out_notification_methods@.len() == 0 {
                c.opt_out_notification_methods is None
            } else {
                c.opt_out_notification_methods matches Some(m) && string_views(m@) == string_views(
                    self.opt_out_notification_methods@,
                )
            }),
    {
        let opt_out = if self.opt_out_notification_methods.len() == 0 {
            None
        } else {
            Some(clone_strings(&self.opt_out_notification_methods))
        };
        InitializeParams {
            client_info: ClientInfo {
                name: clone_string(&self.client_name),
                title: None,
                version: clone_string(&self.client_version),
            },
            capabilities: Some(
                InitializeCapabilities {
                    experimental_api: self.experimental_api,
                    request_attestation: false,
                    opt_out_notification_methods: opt_out,
                },
            ),
        }
    }
}

pub struct RemoteAppServerClient;

#[derive(Debug, Clone, Copy)]
pub struct RemoteAppServerRequestHandle;

impl RemoteAppServerClient {
    /// Connecting always fails: the transports are native-only.
    pub fn connect(args: RemoteAppServerConnectArgs) -> (r: Result<RemoteAppServerClient, Unsupported>)
        ensures
            r matches Err(e) && e.message@ == remote_unsupported_text(),
    {
        Err(unsupported_remote_transport())
    }

    /// No server has reported a version.
    pub fn server_version(&self) -> (r: Option<&str>)
        ensures
            r is None,
    {
        None
    }

    pub fn request_handle(&self) -> (r: RemoteAppServerRequestHandle) {
        RemoteAppServerRequestHandle
    }

    /// No server event ever arrives.
    pub fn next_event(&mut self) -> (r: Option<()>)
        ensures
            r is None,
    {
        None
    }

    /// Shutting down always succeeds.
    pub fn shutdown(self) -> (r: Result<(), Unsupported>)
        ensures
            r is Ok,
    {
        Ok(())
    }
}

// ---------------------------------------------------------------------------
// Realtime and Responses websockets: not available without a browser
// WebSocket host, so every send fails with a stream error.
// ---------------------------------------------------------------------------

#[derive(Debug, Clone)]
pub enum ApiError {
    Stream(String),
}

pub open spec fn realtime_unavailable_text() -> Seq<char> {
    "realtime websocket transport is not available on wasm32 without a browser WebSocket host shim"@
}

pub open spec fn responses_unavailable_text() -> Seq<char> {
    "responses websocket transport is not available on wasm32; use HTTP streaming"@
}

fn realtime_unavailable() -> (r: ApiError)
    ensures
        r matches ApiError::Stream(m) && m@ == realtime_unavailable_text(),
{
    ApiError::Stream(
        owned(
            "realtime websocket transport is not available on wasm32 without a browser WebSocket host shim",
        ),
    )
}

#[derive(Debug, Clone, Copy)]
pub struct RealtimeWebsocketWriter;

#[derive(Debug, Clone, Copy)]
pub struct RealtimeWebsocketEvents;

#[derive(Debug, Clone, Copy)]
pub struct RealtimeWebsocketConnection {
    writer: RealtimeWebsocketWriter,
    events: RealtimeWebsocketEvents,
}

impl RealtimeWebsocketWriter {
    pub fn send_conversation_item_create(&self, text: String) -> (r: Result<(), ApiError>)
        ensures
            r matches Err(ApiError::Stream(m)) && m@ == realtime_unavailable_text(),
    {
        Err(realtime_unavailable())
    }

    pub fn send_conversation_function_call_output(&self, call_id: String, output_text: String) -> (r:
        Result<(), ApiError>)
        ensures
            r matches Err(ApiError::Stream(m)) && m@ == realtime_unavailable_text(),
    {
        Err(realtime_unavailable())
    }

    pub fn send_response_create(&self) -> (r: Result<(), ApiError>)
        ensures
            r matches Err(ApiError::Stream(m)) && m@ == realtime_unavailable_text(),
    {
        Err(realtime_unavailable())
    }

    pub fn send_payload(&self, payload: String) -> (r: Result<(), ApiError>)
        ensures
            r matches Err(ApiError::Stream(m)) && m@ == realtime_unavailable_text(),
    {
        Err(realtime_unavailable())
    }

    /// Closing always succeeds.
    pub fn close(&self) -> (r: Result<(), ApiError>)
        ensures
            r is Ok,
    {
        Ok(())
    }
}

impl RealtimeWebsocketEvents {
    /// Reading an event always fails.
    pub fn next_event(&self) -> (r: Result<Option<()>, ApiError>)
        ensures
            r matches Err(ApiError::Stream(m)) && m@ == realtime_unavailable_text(),
    {
        Err(realtime_unavailable())
    }
}

impl RealtimeWebsocketConnection {
    pub fn writer(&self) -> (r: RealtimeWebsocketWriter) {
        self.writer
    }

    pub fn events(&self) -> (r: RealtimeWebsocketEvents) {
        self.events
    }

    pub fn send_conversation_item_create(&self, text: String) -> (r: Result<(), ApiError>)
        ensures
            r matches Err(ApiError::Stream(m)) && m@ == realtime_unavailable_text(),
    {
        self.writer.send_conversation_item_create(text)
    }

    pub fn send_conversation_function_call_output(&self, call_id: String, output_text: String) -> (r:
        Result<(), ApiError>)
        ensures
            r matches Err(ApiError::Stream(m)) && m@ == realtime_unavailable_text(),
    {
        self.writer.send_conversation_function_call_output(call_id, output_text)
    }

    pub fn close(&self) -> (r: Result<(), ApiError>)
        ensures
            r is Ok,
    {
        self.writer.close()
    }

    pub fn next_event(&self) -> (r: Result<Option<()>, ApiError>)
        ensures
            r matches Err(ApiError::Stream(m)) && m@ == realtime_unavailable_text(),
    {
        self.events.next_event()
    }
}

#[derive(Debug, Clone, Copy)]
pub struct ResponsesWebsocketConnection;

impl ResponsesWebsocketConnection {
    /// The connection is never open.
    pub fn is_closed(&self) -> (r: bool)
        ensures
            r,
    {
        true
    }

    /// Streaming a request always fails.
    pub fn stream_request(&self) -> (r: Result<(), ApiError>)
        ensures
            r matches Err(ApiError::Stream(m)) && m@ == responses_unavailable_text(),
    {
        Err(
            ApiError::Stream(
                owned("responses websocket transport is not available on wasm32; use HTTP streaming"),
            ),
        )
    }
}

/// Close frame information captured by a handshake probe.
#[derive(Debug, Clone, PartialEq, Eq)]
pub struct ResponsesWebsocketClose {
    pub code: String,
    pub reason: String,
}

} // verus!
