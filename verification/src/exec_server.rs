use vstd::prelude::*;

use std::collections::VecDeque;

use crate::browser_cli::cat2;
use crate::browser_cli::cat3;
use crate::text::u64_to_decimal;

verus! {

// ---------------------------------------------------------------------------
// Exec-server client surface: the browser host provides processes, files
// and HTTP itself, so no exec-server transport is ever opened.
// ---------------------------------------------------------------------------

#[derive(Debug, Clone, Copy)]
pub struct ExecServerClient;

/// Why an exec-server call failed (`Spawn` and `Json` carry their cause's
/// message).
#[derive(Debug, Clone)]
pub enum ExecServerError {
    Spawn(String),
    Closed,
    Disconnected(String),
    Json(String),
    HttpRequest(String),
    Protocol(String),
    Server { code: i64, message: String },
    EnvironmentRegistryConfig(String),
    EnvironmentRegistryAuth(String),
    EnvironmentRegistryRequest(String),
}

/// The decimal text of a signed integer.
pub open spec fn signed_decimal(n: int) -> Seq<char> {
    if n < 0 {
        "-"@ + crate::text::decimal_seq((0 - n) as nat)
    } else {
        crate::text::decimal_seq(n as nat)
    }
}

fn i64_to_decimal(n: i64) -> (r: String)
    ensures
        r@ == signed_decimal(n as int),
{
    if n < 0 {
        let magnitude: u64 = if n == i64::MIN {
            0x8000_0000_0000_0000u64
        } else {
            (0 - n) as u64
        };
        let digits = u64_to_decimal(magnitude);
        cat2("-", digits.as_str())
    } else {
        u64_to_decimal(n as u64)
    }
}

pub open spec fn exec_server_error_text(e: ExecServerError) -> Seq<char> {
    match e {
        ExecServerError::Spawn(m) => "failed to spawn exec-server: "@ + m@,
        ExecServerError::Closed => "exec-server transport closed"@,
        ExecServerError::Disconnected(m) => m@,
        ExecServerError::Json(m) => "failed to serialize or deserialize exec-server JSON: "@ + m@,
        ExecServerError::HttpRequest(m) => "HTTP request failed: "@ + m@,
        ExecServerError::Protocol(m) => "exec-server protocol error: "@ + m@,
        ExecServerError::Server { code, message } => "exec-server rejected request ("@
            + signed_decimal(code as int) + "): "@ + message@,
        ExecServerError::EnvironmentRegistryConfig(m) => "environment registry configuration error: "@
            + m@,
        ExecServerError::EnvironmentRegistryAuth(m) => "environment registry authentication error: "@
            + m@,
        ExecServerError::EnvironmentRegistryRequest(m) => "environment registry request failed: "@
            + m@,
    }
}

impl ExecServerError {
    /// The error's message.
    pub fn message(&self) -> (r: String)
        ensures
            r@ == exec_server_error_text(*self),
    {
        proof {
            reveal_strlit("");
        }
        match self {
            ExecServerError::Spawn(m) => cat2("failed to spawn exec-server: ", m.as_str()),
            ExecServerError::Closed => cat2("exec-server transport closed", ""),
            ExecServerError::Disconnected(m) => cat2(m.as_str(), ""),
            ExecServerError::Json(m) => cat2(
                "failed to serialize or deserialize exec-server JSON: ",
                m.as_str(),
            ),
            ExecServerError::HttpRequest(m) => cat2("HTTP request failed: ", m.as_str()),
            ExecServerError::Protocol(m) => cat2("exec-server protocol error: ", m.as_str()),
            ExecServerError::Server { code, message } => {
                let c = i64_to_decimal(*code);
                let head = cat3("exec-server rejected request (", c.as_str(), "): ");
                cat2(head.as_str(), message.as_str())
            },
            ExecServerError::EnvironmentRegistryConfig(m) => cat2(
                "environment registry configuration error: ",
                m.as_str(),
            ),
            ExecServerError::EnvironmentRegistryAuth(m) => cat2(
                "environment registry authentication error: ",
                m.as_str(),
            ),
            ExecServerError::EnvironmentRegistryRequest(m) => cat2(
                "environment registry request failed: ",
                m.as_str(),
            ),
        }
    }
}

/// A response body handed out chunk by chunk, in order.
pub struct HttpResponseBodyStream {
    chunks: VecDeque<Vec<u8>>,
}

impl View for HttpResponseBodyStream {
    type V = Seq<Seq<u8>>;

    closed spec fn view(&self) -> Seq<Seq<u8>> {
        self.chunks@.map_values(|c: Vec<u8>| c@)
    }
}

impl HttpResponseBodyStream {
    /// A stream of one chunk holding `body`, or of none for an empty body.
    pub fn buffered(body: Vec<u8>) -> (r: Self)
        ensures
            r@ == if body@.len() == 0 {
                Seq::<Seq<u8>>::empty()
            } else {
                seq![body@]
            },
    {
        let ghost b = body@;
        let mut chunks: VecDeque<Vec<u8>> = VecDeque::new();
        if body.len() > 0 {
            chunks.push_back(body);
        }
        let r = HttpResponseBodyStream { chunks };
        assert(r@ =~= if b.len() == 0 {
            Seq::<Seq<u8>>::empty()
        } else {
            seq![b]
        });
        r
    }

    /// The next chunk, or `None` once the body is used up.
    pub fn recv(&mut self) -> (r: Result<Option<Vec<u8>>, ExecServerError>)
        ensures
            old(self)@.len() == 0 ==> (r matches Ok(None)),
            old(self)@.len() == 0 ==> (final(self)@ == old(self)@),
            old(self)@.len() > 0 ==> (r matches Ok(Some(c)) && c@ == old(self)@[0]),
            old(self)@.len() > 0 ==> (final(self)@ == old(self)@.drop_first()),
    {
        let ghost before = self.chunks@;
        let c = self.chunks.pop_front();
        assert(self@ =~= if before.len() == 0 {
            before.map_values(|c: Vec<u8>| c@)
        } else {
            before.map_values(|c: Vec<u8>| c@).drop_first()
        });
        Ok(c)
    }
}

// ---------------------------------------------------------------------------
// Noise rendezvous: native-only, so no identity can be made in the browser.
// ---------------------------------------------------------------------------

/// A registry key envelope, kept so shared protocol types still carry one.
#[derive(Debug, Clone, PartialEq, Eq)]
pub struct NoiseChannelPublicKey {
    suite: String,
    x25519_public_key: String,
    mlkem768_public_key: String,
}

#[derive(Debug, Clone, Copy)]
pub struct NoiseChannelIdentity;

#[derive(Debug, Clone, Copy, PartialEq, Eq, Structural)]
pub enum NoiseChannelError {
    Unavailable,
}

impl NoiseChannelError {
    pub fn message(&self) -> (r: &'static str)
        ensures
            r@ == "Noise rendezvous is unavailable in browser wasm"@,
    {
        "Noise rendezvous is unavailable in browser wasm"
    }
}

impl NoiseChannelIdentity {
    /// Always refused: the browser build has no Noise rendezvous.
    pub fn generate() -> (r: Result<NoiseChannelIdentity, NoiseChannelError>)
        ensures
            r == Err::<NoiseChannelIdentity, NoiseChannelError>(NoiseChannelError::Unavailable),
    {
        Err(NoiseChannelError::Unavailable)
    }
}

} // verus!
