use codex_browser::host_bridge::sse_step;
use codex_browser::host_bridge::IdleTimeout;
use codex_browser::host_bridge::SseStep;
use codex_browser::host_bridge::StreamError;
use codex_browser::exec_process::directory_entry_from_host;
use codex_browser::exec_process::file_metadata_from_host;
use codex_browser::exec_process::host_output_stream;
use codex_browser::exec_process::io_error_kind_for;
use codex_browser::exec_process::spawn_handle_mismatch;
use codex_browser::exec_process::ExecOutputStream;
use codex_browser::exec_process::IoErrorKind;
use codex_browser::exec_process::ProcessOutputState;
use codex_browser::exec_server::ExecServerError;
use codex_browser::exec_server::HttpResponseBodyStream;
use codex_browser::exec_server::NoiseChannelError;
use codex_browser::exec_server::NoiseChannelIdentity;
use codex_browser::host_bridge::apply_output_delta;
use codex_browser::host_bridge::decode_body;
use codex_browser::host_bridge::fetch_stream_step;
use codex_browser::host_bridge::host_fetch_response;
use codex_browser::host_bridge::host_file_contents;
use codex_browser::host_bridge::stdin_delta_base64;
use codex_browser::host_bridge::transport_error_from_js;
use codex_browser::host_bridge::FetchStreamStep;
use codex_browser::host_bridge::OutputDeltaOutcome;
use codex_browser::retry::TransportError;

#[test]
fn output_gets_rising_sequence_numbers() {
    let mut state = ProcessOutputState::new();
    let a = state.push_output(ExecOutputStream::Stdout, b"hello".to_vec());
    let b = state.push_output(ExecOutputStream::Stderr, b"oops".to_vec());
    assert_eq!(a.seq, 1);
    assert_eq!(b.seq, 2);
    assert_eq!(b.chunk, b"oops".to_vec());
    let read = state.read_snapshot(None, None);
    assert_eq!(read.chunks.len(), 2);
    assert_eq!(read.next_seq, 3);
    assert!(!read.exited);
    assert!(!read.closed);
    let after = state.read_snapshot(Some(1), None);
    assert_eq!(after.chunks.len(), 1);
    assert_eq!(after.chunks[0].seq, 2);
}

#[test]
fn reads_stop_once_the_byte_budget_is_spent() {
    let mut state = ProcessOutputState::new();
    state.push_output(ExecOutputStream::Stdout, vec![1u8; 4]);
    state.push_output(ExecOutputStream::Stdout, vec![2u8; 4]);
    state.push_output(ExecOutputStream::Stdout, vec![3u8; 4]);
    assert_eq!(state.read_snapshot(None, Some(5)).chunks.len(), 2);
    assert_eq!(state.read_snapshot(None, Some(4)).chunks.len(), 1);
    assert_eq!(state.read_snapshot(None, Some(0)).chunks.len(), 0);
    assert_eq!(state.read_snapshot(Some(1), Some(1)).chunks.len(), 1);
}

#[test]
fn old_output_is_dropped_past_the_limits() {
    let mut state = ProcessOutputState::new();
    for _ in 0..600 {
        state.push_output(ExecOutputStream::Stdout, vec![0u8; 1]);
    }
    let read = state.read_snapshot(None, None);
    assert_eq!(read.chunks.len(), 512);
    assert_eq!(read.chunks[0].seq, 89);
    let mut big = ProcessOutputState::new();
    big.push_output(ExecOutputStream::Stdout, vec![0u8; 600_000]);
    big.push_output(ExecOutputStream::Stdout, vec![0u8; 600_000]);
    let read = big.read_snapshot(None, None);
    assert_eq!(read.chunks.len(), 1);
    assert_eq!(read.chunks[0].seq, 2);
    let mut huge = ProcessOutputState::new();
    huge.push_output(ExecOutputStream::Stdout, vec![0u8; 2 * 1024 * 1024]);
    assert_eq!(huge.read_snapshot(None, None).chunks.len(), 0);
}

#[test]
fn exit_closes_once() {
    let mut state = ProcessOutputState::new();
    state.push_output(ExecOutputStream::Stdout, b"x".to_vec());
    assert_eq!(state.exit(3), Some((2, 3)));
    let read = state.read_snapshot(None, None);
    assert!(read.exited);
    assert!(read.closed);
    assert_eq!(read.exit_code, Some(3));
    assert_eq!(read.next_seq, 4);
    assert_eq!(state.exit(4), None);
    assert_eq!(state.fail("late".to_string()), None);
    assert_eq!(state.read_snapshot(None, None).exit_code, Some(3));
}

#[test]
fn failure_closes_without_an_exit_code() {
    let mut state = ProcessOutputState::new();
    assert_eq!(state.fail("spawn failed".to_string()), Some(1));
    let read = state.read_snapshot(None, None);
    assert!(read.closed);
    assert!(!read.exited);
    assert_eq!(read.failure.as_deref(), Some("spawn failed"));
    assert_eq!(state.exit(0), None);
}

#[test]
fn finishing_records_remaining_output_then_exit() {
    let mut state = ProcessOutputState::new();
    let events = state.finish_from_host_result("done\n", "", 0);
    assert_eq!(events.stdout.as_ref().unwrap().chunk, b"done\n".to_vec());
    assert!(events.stderr.is_none());
    assert_eq!(events.exit, Some((2, 3)));
    let read = state.read_snapshot(None, None);
    assert_eq!(read.chunks.len(), 1);
    assert_eq!(read.exit_code, Some(0));
}

#[test]
fn host_answers_are_classified() {
    assert_eq!(host_output_stream("stdout"), Some(ExecOutputStream::Stdout));
    assert_eq!(host_output_stream("stderr"), Some(ExecOutputStream::Stderr));
    assert_eq!(host_output_stream("pty"), None);
    assert_eq!(spawn_handle_mismatch("p1", "p1"), None);
    assert_eq!(
        spawn_handle_mismatch("p2", "p1").as_deref(),
        Some("host process/spawn returned handle `p2` for `p1`")
    );
    assert_eq!(io_error_kind_for("ENOENT: no such file"), IoErrorKind::NotFound);
    assert_eq!(io_error_kind_for("NotFound"), IoErrorKind::NotFound);
    assert_eq!(io_error_kind_for("EACCES: denied"), IoErrorKind::Other);
    let meta = file_metadata_from_host("directory", 1234);
    assert!(meta.is_directory && !meta.is_file && !meta.is_symlink);
    assert_eq!(meta.modified_at_ms, 1234);
    assert_eq!(meta.created_at_ms, 0);
    let file = file_metadata_from_host("file", 0);
    assert!(file.is_file && !file.is_directory);
    let entry = directory_entry_from_host("a.txt".to_string(), "symlink");
    assert!(entry.is_file && !entry.is_directory);
    assert_eq!(entry.file_name, "a.txt");
}

#[test]
fn buffered_bodies_are_read_once() {
    let mut body = HttpResponseBodyStream::buffered(b"payload".to_vec());
    match body.recv() {
        Ok(Some(chunk)) => assert_eq!(chunk, b"payload".to_vec()),
        _ => panic!("the body comes back whole"),
    }
    assert!(matches!(body.recv(), Ok(None)));
    let mut empty = HttpResponseBodyStream::buffered(Vec::new());
    assert!(matches!(empty.recv(), Ok(None)));
}

#[test]
fn exec_server_errors_have_messages() {
    assert_eq!(ExecServerError::Closed.message(), "exec-server transport closed");
    assert_eq!(
        ExecServerError::Server {
            code: -32600,
            message: "bad".to_string()
        }
        .message(),
        "exec-server rejected request (-32600): bad"
    );
    assert_eq!(
        ExecServerError::Protocol("x".to_string()).message(),
        "exec-server protocol error: x"
    );
    assert_eq!(ExecServerError::Disconnected("gone".to_string()).message(), "gone");
    assert!(matches!(
        NoiseChannelIdentity::generate(),
        Err(NoiseChannelError::Unavailable)
    ));
    assert_eq!(
        NoiseChannelError::Unavailable.message(),
        "Noise rendezvous is unavailable in browser wasm"
    );
}

#[test]
fn host_deltas_and_bodies_are_base64() {

    let mut state = ProcessOutputState::new();
    match apply_output_delta(&mut state, ExecOutputStream::Stdout, "aGVsbG8=") {
        OutputDeltaOutcome::Recorded(chunk) => assert_eq!(chunk.chunk, b"hello".to_vec()),
        OutputDeltaOutcome::Failed(_) => panic!("valid base64"),
    }
    match apply_output_delta(&mut state, ExecOutputStream::Stdout, "***") {
        OutputDeltaOutcome::Failed(seq) => assert_eq!(seq, Some(2)),
        OutputDeltaOutcome::Recorded(_) => panic!("invalid base64"),
    }
    let read = state.read_snapshot(None, None);
    assert!(read.closed);
    assert!(read.failure.unwrap().starts_with("invalid host process output delta: "));

    assert_eq!(stdin_delta_base64(&b"hi".to_vec()), "aGk=");
    assert_eq!(decode_body("aGk=").unwrap(), b"hi".to_vec());
    assert!(matches!(decode_body("!"), Err(TransportError::Network(_))));
    assert_eq!(host_file_contents("aGk=", "base64").unwrap(), b"hi".to_vec());
    assert_eq!(host_file_contents("aGk=", "utf8").unwrap(), b"aGk=".to_vec());
    assert!(host_file_contents("%%", "base64").is_err());

    let headers = vec![
        ("Content-Type".to_string(), "text/plain".to_string()),
        ("bad name".to_string(), "x".to_string()),
        ("x-bad-value".to_string(), "a\nb".to_string()),
    ];
    match host_fetch_response(404, "https://x/y".to_string(), headers.clone(), "bm90IGZvdW5k") {
        Err(TransportError::Http { status, url, headers, body }) => {
            assert_eq!(status, 404);
            assert_eq!(url.as_deref(), Some("https://x/y"));
            assert_eq!(headers, Some(vec![("content-type".to_string(), "text/plain".to_string())]));
            assert_eq!(body.as_deref(), Some("not found"));
        }
        _ => panic!("a 404 is an HTTP error"),
    }
    let ok = host_fetch_response(200, "u".to_string(), headers, "aGk=").unwrap();
    assert_eq!(ok.body, b"hi".to_vec());
    assert_eq!(ok.headers, vec![("content-type".to_string(), "text/plain".to_string())]);
    match host_fetch_response(42, "u".to_string(), Vec::new(), "") {
        Err(TransportError::Network(m)) => assert_eq!(m, "invalid status code"),
        _ => panic!("42 is no status"),
    }

    assert!(matches!(fetch_stream_step(Ok((true, String::new()))), FetchStreamStep::Finished));
    match fetch_stream_step(Ok((false, String::new()))) {
        FetchStreamStep::FailAndCancel(TransportError::Network(m)) => {
            assert_eq!(m, "network/fetchStreamRead returned an empty non-final chunk")
        }
        _ => panic!("an empty chunk before the end is an error"),
    }
    match fetch_stream_step(Ok((false, "aGk=".to_string()))) {
        FetchStreamStep::Chunk(b) => assert_eq!(b, b"hi".to_vec()),
        _ => panic!("a chunk"),
    }
    match transport_error_from_js("refused", Some("ECONNREFUSED")) {
        TransportError::Network(m) => assert_eq!(m, "ECONNREFUSED: refused"),
        _ => panic!("network error"),
    }
    match transport_error_from_js("refused", Some("")) {
        TransportError::Network(m) => assert_eq!(m, "refused"),
        _ => panic!("network error"),
    }
}

#[test]
fn sse_pump_forwards_data_and_stops_on_errors_and_idle_timeout() {
    assert!(matches!(sse_step(Ok(Some(Ok("data".to_string())))), SseStep::Forward(d) if d == "data"));
    assert!(matches!(sse_step(Ok(Some(Err("bad".to_string())))), SseStep::Stop(StreamError::Stream(m)) if m == "bad"));
    assert!(matches!(
        sse_step(Ok(None)),
        SseStep::Stop(StreamError::Stream(m)) if m == "stream closed before completion"
    ));
    assert!(matches!(sse_step(Err(IdleTimeout)), SseStep::Stop(StreamError::Timeout)));
}
