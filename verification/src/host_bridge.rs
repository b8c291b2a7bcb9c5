use vstd::prelude::*;

use crate::browser_cli::cat2;
use crate::exec_process::ExecOutputStream;
use crate::exec_process::IoErrorKind;
use crate::exec_process::OutputChunk;
use crate::exec_process::ProcessOutputState;
use crate::exec_server::ExecServerError;
use crate::login::header_value_accepts;
use crate::login::header_value_ok;
use crate::retry::TransportError;
use crate::text::owned;
use crate::text::str_eq;
use vstd::string::StringSliceAdditionalSpecFns;

use base64::Engine;

verus! {

// ---------------------------------------------------------------------------
// Bytes that cross the JavaScript host boundary as base64 text
// ---------------------------------------------------------------------------

/// What the standard base64 engine of the `base64` crate decodes a text to:
/// the bytes, or the text of the decoding error.
pub uninterp spec fn base64_standard_decode(input: Seq<char>) -> Result<Seq<u8>, Seq<char>>;

/// What the standard base64 engine of the `base64` crate encodes bytes as.
pub uninterp spec fn base64_standard_encode(bytes: Seq<u8>) -> Seq<char>;

/// Whether `text` decodes to `bytes`.
pub open spec fn decodes_to(text: Seq<char>, bytes: Seq<u8>) -> bool {
    base64_standard_decode(text) == Result::<Seq<u8>, Seq<char>>::Ok(bytes)
}

pub open spec fn decoded_view(r: Result<Vec<u8>, String>) -> Result<Seq<u8>, Seq<char>> {
    match r {
        Ok(bytes) => Ok(bytes@),
        Err(m) => Err(m@),
    }
}

/// `base64::engine::general_purpose::STANDARD.decode`, the error given as
/// its `Display` text. Its result is a function of the input; nothing more
/// is claimed of it.
#[verifier::external_body]
fn decode_base64(input: &str) -> (r: Result<Vec<u8>, String>)
    ensures
        base64_standard_decode(input@) == decoded_view(r),
{
    base64::engine::general_purpose::STANDARD.decode(input).map_err(|e| e.to_string())
}

/// `base64::engine::general_purpose::STANDARD.encode`. Decoding the text it
/// gives yields the same bytes back (the crate documents the round trip).
#[verifier::external_body]
fn encode_base64(bytes: &Vec<u8>) -> (r: String)
    ensures
        r@ == base64_standard_encode(bytes@),
        decodes_to(r@, bytes@),
{
    base64::engine::general_purpose::STANDARD.encode(bytes)
}

/// `String::from_utf8`: the text the bytes encode, where they are valid
/// UTF-8.
#[verifier::external_body]
fn utf8_text(bytes: Vec<u8>) -> (r: Option<String>)
    ensures
        match r {
            Some(s) => vstd::utf8::valid_utf8(bytes@) && s@ == vstd::utf8::decode_utf8(bytes@),
            None => !vstd::utf8::valid_utf8(bytes@),
        },
{
    String::from_utf8(bytes).ok()
}

/// The base64 text of a chunk written to a process's standard input.
pub fn stdin_delta_base64(chunk: &Vec<u8>) -> (r: String)
    ensures
        r@ == base64_standard_encode(chunk@),
        decodes_to(r@, chunk@),
{
    encode_base64(chunk)
}

// ---------------------------------------------------------------------------
// Process output reported by the host
// ---------------------------------------------------------------------------

/// What an output delta from the host did to the process.
pub enum OutputDeltaOutcome {
    /// The decoded bytes were recorded as this chunk.
    Recorded(OutputChunk),
    /// The delta was not valid base64: the process failed (with the event's
    /// sequence number, or `None` when it was already closed).
    Failed(Option<u64>),
}

pub open spec fn invalid_delta_message(error: Seq<char>) -> Seq<char> {
    "invalid host process output delta: "@ + error
}

/// Records an output delta the host sent as base64: its bytes become the
/// next chunk; text that is no base64 fails the process with the decoder's
/// message.
pub fn apply_output_delta(
    state: &mut ProcessOutputState,
    stream: ExecOutputStream,
    delta_base64: &str,
) -> (r: OutputDeltaOutcome)
    requires
        old(state).wf(),
        old(state).next_seq_spec() < u64::MAX,
    ensures
        final(state).wf(),
        match base64_standard_decode(delta_base64@) {
            Ok(bytes) => bytes.len() <= u64::MAX - crate::exec_process::retained_bytes_limit() ==> (
            r matches OutputDeltaOutcome::Recorded(c) && c.chunk@ == bytes && c.stream == stream
                && c.seq == old(state).next_seq_spec() && final(state).output_spec()
                == crate::exec_process::evict(
                old(state).output_spec().push((old(state).next_seq_spec(), stream, bytes)),
            ) && final(state).next_seq_spec() == old(state).next_seq_spec() + 1
                && final(state).closed_spec() == old(state).closed_spec() && final(state).exit_code_spec()
                == old(state).exit_code_spec() && final(state).failure_spec()
                == old(state).failure_spec()),
            Err(e) => (r matches OutputDeltaOutcome::Failed(seq) && (old(state).closed_spec() ==> seq
                is None && *final(state) == *old(state)) && (!old(state).closed_spec() ==> seq == Some(
                old(state).next_seq_spec(),
            ) && final(state).failure_spec() == Some(invalid_delta_message(e)) && final(state).closed_spec()
                && final(state).output_spec() == old(state).output_spec())),
        },
{
    match decode_base64(delta_base64) {
        Ok(bytes) => {
            if bytes.len() as u64 > u64::MAX - 0x10_0000 {
                let seq = state.fail(owned("host process output delta is too large"));
                return OutputDeltaOutcome::Failed(seq);
            }
            OutputDeltaOutcome::Recorded(state.push_output(stream, bytes))
        },
        Err(e) => {
            let message = cat2("invalid host process output delta: ", e.as_str());
            OutputDeltaOutcome::Failed(state.fail(message))
        },
    }
}

// ---------------------------------------------------------------------------
// Files and fetches answered by the host
// ---------------------------------------------------------------------------

/// The contents of a file the host read: base64 text is decoded (a bad one
/// is invalid data), any other encoding is taken as the text's UTF-8 bytes.
pub fn host_file_contents(content: &str, encoding: &str) -> (r: Result<Vec<u8>, (IoErrorKind, String)>)
    ensures
        encoding@ == "base64"@ ==> match base64_standard_decode(content@) {
            Ok(bytes) => r matches Ok(b) && b@ == bytes,
            Err(e) => r matches Err((k, m)) && k == IoErrorKind::InvalidData && m@ == e,
        },
        encoding@ != "base64"@ ==> (r matches Ok(b) && b@ == content.spec_bytes()),
{
    if str_eq(encoding, "base64") {
        match decode_base64(content) {
            Ok(bytes) => Ok(bytes),
            Err(e) => Err((IoErrorKind::InvalidData, e)),
        }
    } else {
        Ok(vstd::slice::slice_to_vec(content.as_bytes()))
    }
}

/// The body of an exec-server fetch the host answered, decoded from base64;
/// a bad one is a protocol error.
pub fn host_fetch_body(body_base64: &str) -> (r: Result<Vec<u8>, ExecServerError>)
    ensures
        match base64_standard_decode(body_base64@) {
            Ok(bytes) => r matches Ok(b) && b@ == bytes,
            Err(e) => r matches Err(ExecServerError::Protocol(m)) && m@ == "invalid host fetch body: "@
                + e,
        },
{
    match decode_base64(body_base64) {
        Ok(bytes) => Ok(bytes),
        Err(e) => Err(ExecServerError::Protocol(cat2("invalid host fetch body: ", e.as_str()))),
    }
}

/// A transport body the host sent as base64; a bad one is a network error
/// with the decoder's message.
pub fn decode_body(body_base64: &str) -> (r: Result<Vec<u8>, TransportError>)
    ensures
        match base64_standard_decode(body_base64@) {
            Ok(bytes) => r matches Ok(b) && b@ == bytes,
            Err(e) => r matches Err(TransportError::Network(m)) && m@ == e,
        },
{
    match decode_base64(body_base64) {
        Ok(bytes) => Ok(bytes),
        Err(e) => Err(TransportError::Network(e)),
    }
}

/// A successful answer to a fetch: its status, header entries (name, value)
/// and body.
pub struct HostResponse {
    pub status: u16,
    pub headers: Vec<(String, String)>,
    pub body: Vec<u8>,
}

/// What `http::HeaderName::from_bytes` makes of `name`'s UTF-8 bytes: the
/// name in the normalised (lower-case) form the crate keeps, or nothing where
/// it is no valid header name. It is a function of the text alone.
pub uninterp spec fn header_name_form(name: Seq<char>) -> Option<Seq<char>>;

/// `http::HeaderName::from_bytes`, read back as the name's text.
#[verifier::external_body]
fn header_name_text(name: &str) -> (r: Option<String>)
    ensures
        match r {
            Some(t) => header_name_form(name@) == Some(t@),
            None => header_name_form(name@) is None,
        },
{
    match http::HeaderName::from_bytes(name.as_bytes()) {
        Ok(n) => Some(n.as_str().to_string()),
        Err(_) => None,
    }
}

pub open spec fn header_views(v: Seq<(String, String)>) -> Seq<(Seq<char>, Seq<char>)> {
    v.map_values(|p: (String, String)| (p.0@, p.1@))
}

/// The entries of `hs` that are valid headers, in order: the name as
/// `http::HeaderName` normalises it, the value as given where
/// `http::HeaderValue` accepts it.
pub open spec fn valid_headers(hs: Seq<(Seq<char>, Seq<char>)>) -> Seq<(Seq<char>, Seq<char>)>
    decreases hs.len(),
{
    if hs.len() == 0 {
        Seq::empty()
    } else {
        let rest = valid_headers(hs.drop_last());
        let n = hs.last().0;
        let v = hs.last().1;
        match header_name_form(n) {
            Some(nn) => if header_value_ok(v) {
                rest.push((nn, v))
            } else {
                rest
            },
            None => rest,
        }
    }
}

/// The header entries the host reported, keeping the valid ones (see
/// `valid_headers`).
pub fn map_to_headers(headers: &Vec<(String, String)>) -> (r: Vec<(String, String)>)
    ensures
        header_views(r@) == valid_headers(header_views(headers@)),
{
    let mut out: Vec<(String, String)> = Vec::new();
    let mut i: usize = 0;
    while i < headers.len()
        invariant
            i <= headers@.len(),
            header_views(out@) == valid_headers(header_views(headers@.subrange(0, i as int))),
        decreases headers.len() - i,
    {
        let ghost pre = header_views(headers@.subrange(0, i as int));
        assert(header_views(headers@.subrange(0, i + 1)).drop_last() =~= pre);
        assert(header_views(headers@.subrange(0, i + 1)).last() == (headers@[i as int].0@, headers@[i as int].1@));
        let name = &headers[i].0;
        let value = &headers[i].1;
        match header_name_text(name.as_str()) {
            Some(n) => {
                if header_value_accepts(value.as_str()) {
                    let ghost before = header_views(out@);
                    let ghost nv = n@;
                    out.push((n, crate::browser_cli::clone_string(value)));
                    assert(header_views(out@) =~= before.push((nv, value@)));
                }
            },
            None => {},
        }
        i = i + 1;
    }
    assert(headers@.subrange(0, headers@.len() as int) =~= headers@);
    out
}

/// The outcome of a fetch the host answered with `status`, the final `url`,
/// its header entries and the base64 body: a status outside 100..=999 is a
/// network error; a bad body likewise; a status outside 200..300 is an HTTP
/// error that carries the URL, the valid headers and the body where it is
/// UTF-8 text; else the status, the valid headers and the body.
pub fn host_fetch_response(
    status: u16,
    url: String,
    headers: Vec<(String, String)>,
    body_base64: &str,
) -> (r: Result<HostResponse, TransportError>)
    ensures
        !(100 <= status <= 999) ==> (r matches Err(TransportError::Network(m)) && m@
            == "invalid status code"@),
        100 <= status <= 999 ==> match base64_standard_decode(body_base64@) {
            Err(e) => r matches Err(TransportError::Network(m)) && m@ == e,
            Ok(bytes) => if 200 <= status < 300 {
                r matches Ok(resp) && resp.status == status && resp.body@ == bytes
                    && header_views(resp.headers@) == valid_headers(header_views(headers@))
            } else {
                r matches Err(TransportError::Http { status: s, url: u, headers: h, body }) && s == status
                    && (u matches Some(x) && x@ == url@) && (h matches Some(hv) && header_views(hv@)
                    == valid_headers(header_views(headers@))) && match body {
                    Some(t) => vstd::utf8::valid_utf8(bytes) && t@ == vstd::utf8::decode_utf8(bytes),
                    None => !vstd::utf8::valid_utf8(bytes),
                }
            },
        },
{
    if !(100 <= status && status <= 999) {
        return Err(TransportError::Network(owned("invalid status code")));
    }
    let headers = map_to_headers(&headers);
    let bytes = match decode_body(body_base64) {
        Ok(b) => b,
        Err(e) => return Err(e),
    };
    if !(200 <= status && status < 300) {
        let body = utf8_text(bytes);
        return Err(TransportError::Http { status, url: Some(url), headers: Some(headers), body });
    }
    Ok(HostResponse { status, headers, body: bytes })
}

// ---------------------------------------------------------------------------
// Reading a streamed fetch
// ---------------------------------------------------------------------------

/// What the stream reader does after one read from the host.
pub enum FetchStreamStep {
    /// The body is complete: stop.
    Finished,
    /// Hand these bytes on and read again.
    Chunk(Vec<u8>),
    /// Hand this error on, cancel the stream on the host, and stop.
    FailAndCancel(TransportError),
}

pub open spec fn empty_chunk_text() -> Seq<char> {
    "network/fetchStreamRead returned an empty non-final chunk"@
}

/// The step after a read that failed with an error, finished, or returned a
/// chunk of base64 text: a failed read, an empty chunk before the end, or a
/// chunk that is no base64 ends the stream with an error.
pub fn fetch_stream_step(read: Result<(bool, String), TransportError>) -> (r: FetchStreamStep)
    ensures
        match read {
            Err(e) => r matches FetchStreamStep::FailAndCancel(x) && x == e,
            Ok((true, _)) => r is Finished,
            Ok((false, chunk)) => if chunk@.len() == 0 {
                r matches FetchStreamStep::FailAndCancel(TransportError::Network(m)) && m@
                    == empty_chunk_text()
            } else {
                match base64_standard_decode(chunk@) {
                    Ok(bytes) => r matches FetchStreamStep::Chunk(b) && b@ == bytes,
                    Err(e) => r matches FetchStreamStep::FailAndCancel(TransportError::Network(m))
                        && m@ == e,
                }
            },
        },
{
    match read {
        Err(e) => FetchStreamStep::FailAndCancel(e),
        Ok((done, chunk)) => {
            if done {
                return FetchStreamStep::Finished;
            }
            if chunk.as_str().unicode_len() == 0 {
                return FetchStreamStep::FailAndCancel(
                    TransportError::Network(
                        owned("network/fetchStreamRead returned an empty non-final chunk"),
                    ),
                );
            }
            match decode_body(chunk.as_str()) {
                Ok(bytes) => FetchStreamStep::Chunk(bytes),
                Err(e) => FetchStreamStep::FailAndCancel(e),
            }
        },
    }
}

// ---------------------------------------------------------------------------
// Errors thrown by the host
// ---------------------------------------------------------------------------

/// A transport error from a JavaScript error's `message` and `code`: the
/// code and message joined by `: ` when there is a non-empty code.
pub fn transport_error_from_js(message: &str, code: Option<&str>) -> (r: TransportError)
    ensures
        match code {
            Some(c) if c@.len() > 0 => r matches TransportError::Network(m) && m@ == c@ + ": "@
                + message@,
            _ => r matches TransportError::Network(m) && m@ == message@,
        },
{
    match code {
        Some(c) => if c.unicode_len() > 0 {
            let head = cat2(c, ": ");
            TransportError::Network(cat2(head.as_str(), message))
        } else {
            TransportError::Network(owned(message))
        },
        None => TransportError::Network(owned(message)),
    }
}

/// An exec-server error from a JavaScript error's message and `code`: the
/// code and message joined by `: ` when there is a code.
pub fn exec_error_from_js(message: &str, code: Option<&str>) -> (r: ExecServerError)
    ensures
        match code {
            Some(c) => r matches ExecServerError::Protocol(m) && m@ == c@ + ": "@ + message@,
            None => r matches ExecServerError::Protocol(m) && m@ == message@,
        },
{
    match code {
        Some(c) => {
            let head = cat2(c, ": ");
            ExecServerError::Protocol(cat2(head.as_str(), message))
        },
        None => ExecServerError::Protocol(owned(message)),
    }
}


// ---------------------------------------------------------------------------
// Server-sent events
// ---------------------------------------------------------------------------

/// Why a stream of server-sent events ended early.
#[derive(Debug, Clone)]
pub enum StreamError {
    Stream(String),
    Timeout,
}

/// What the event pump does with the next item of the event stream.
#[derive(Debug, Clone)]
pub enum SseStep {
    /// Forward the event's `data:` text and keep reading.
    Forward(String),
    /// Send this error and stop.
    Stop(StreamError),
}

pub open spec fn closed_early_text() -> Seq<char> {
    "stream closed before completion"@
}

/// The next item of the event stream did not come within the idle timeout.
#[derive(Debug, Clone, Copy)]
pub struct IdleTimeout;

/// The pump's step for the next item, or for an idle timeout: an event's
/// data is forwarded; a parse failure, or the end of the stream before
/// completion, stops it with a stream error; an idle timeout stops it with
/// `StreamError::Timeout`.
pub fn sse_step(next: Result<Option<Result<String, String>>, IdleTimeout>) -> (r: SseStep)
    ensures
        match next {
            Ok(Some(Ok(data))) => r matches SseStep::Forward(d) && d@ == data@,
            Ok(Some(Err(e))) => r matches SseStep::Stop(StreamError::Stream(m)) && m@ == e@,
            Ok(None) => r matches SseStep::Stop(StreamError::Stream(m)) && m@ == closed_early_text(),
            Err(_) => r matches SseStep::Stop(StreamError::Timeout),
        },
{
    match next {
        Ok(Some(Ok(data))) => SseStep::Forward(data),
        Ok(Some(Err(e))) => SseStep::Stop(StreamError::Stream(e)),
        Ok(None) => SseStep::Stop(StreamError::Stream(owned("stream closed before completion"))),
        Err(_) => SseStep::Stop(StreamError::Timeout),
    }
}

} // verus!
