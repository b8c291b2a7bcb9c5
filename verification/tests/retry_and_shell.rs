use codex_browser::retry::backoff;
use codex_browser::retry::retry_step;
use codex_browser::retry::RetryAction;
use codex_browser::retry::RetryOn;
use codex_browser::retry::RetryPolicy;
use codex_browser::retry::TransportError;
use codex_browser::shell_command::extract_bash_command;
use codex_browser::shell_command::parse_shell_lc_plain_commands;
use codex_browser::shell_command::parse_shell_script_into_commands;
use codex_browser::shell_command::try_parse_shell;

fn all_on() -> RetryOn {
    RetryOn {
        retry_429: true,
        retry_5xx: true,
        retry_transport: true,
    }
}

fn http(status: u16) -> TransportError {
    TransportError::Http {
        status,
        url: None,
        headers: None,
        body: None,
    }
}

#[test]
fn retries_server_errors_and_rate_limits_before_the_limit() {
    let on = all_on();
    assert!(on.should_retry(&http(500), 0, 3));
    assert!(on.should_retry(&http(503), 2, 3));
    assert!(on.should_retry(&http(599), 1, 3));
    assert!(on.should_retry(&http(429), 0, 3));
    assert!(!on.should_retry(&http(600), 0, 3));
    assert!(!on.should_retry(&http(404), 0, 3));
    assert!(!on.should_retry(&http(500), 3, 3));
}

#[test]
fn transport_failures_follow_the_transport_flag() {
    let on = all_on();
    assert!(on.should_retry(&TransportError::Timeout, 0, 1));
    assert!(on.should_retry(&TransportError::Network("reset".to_string()), 0, 1));
    assert!(!on.should_retry(&TransportError::Build("bad".to_string()), 0, 1));
    assert!(!on.should_retry(&TransportError::RetryLimit, 0, 1));
    let off = RetryOn {
        retry_429: false,
        retry_5xx: false,
        retry_transport: false,
    };
    assert!(!off.should_retry(&TransportError::Timeout, 0, 1));
    assert!(!off.should_retry(&http(500), 0, 1));
    assert!(!off.should_retry(&http(429), 0, 1));
}

#[test]
fn backoff_doubles_from_the_base_delay() {
    assert_eq!(backoff(100, 0), 100);
    assert_eq!(backoff(100, 1), 100);
    assert_eq!(backoff(100, 2), 200);
    assert_eq!(backoff(100, 3), 400);
    assert_eq!(backoff(100, 11), 102_400);
    assert_eq!(backoff(0, 40), 0);
}

#[test]
fn backoff_saturates_at_the_largest_delay() {
    assert_eq!(backoff(1, 65), u64::MAX);
    assert_eq!(backoff(3, 64), u64::MAX);
    assert_eq!(backoff(u64::MAX, 2), u64::MAX);
    assert_eq!(backoff(1, 64), 1u64 << 63);
}

#[test]
fn retry_step_waits_then_gives_up() {
    let policy = RetryPolicy {
        max_attempts: 2,
        base_delay_ms: 50,
        retry_on: all_on(),
    };
    match retry_step(&policy, 0, http(502)) {
        RetryAction::Retry {
            delay_ms,
            next_attempt,
        } => {
            assert_eq!(delay_ms, 50);
            assert_eq!(next_attempt, 1);
        }
        RetryAction::GiveUp(_) => panic!("a 502 on the first attempt is retried"),
    }
    match retry_step(&policy, 1, TransportError::Timeout) {
        RetryAction::Retry {
            delay_ms,
            next_attempt,
        } => {
            assert_eq!(delay_ms, 100);
            assert_eq!(next_attempt, 2);
        }
        RetryAction::GiveUp(_) => panic!("a timeout on the second attempt is retried"),
    }
    match retry_step(&policy, 2, http(502)) {
        RetryAction::GiveUp(TransportError::Http { status, .. }) => assert_eq!(status, 502),
        _ => panic!("the last attempt gives up with the error itself"),
    }
}

fn words(w: &[&str]) -> Vec<String> {
    w.iter().map(|s| s.to_string()).collect()
}

#[test]
fn extracts_login_shell_scripts() {
    let command = words(&["/bin/bash", "-lc", "ls -la"]);
    assert_eq!(extract_bash_command(&command), Some(("/bin/bash", "ls -la")));
    let command = words(&["zsh", "-c", "echo hi"]);
    assert_eq!(extract_bash_command(&command), Some(("zsh", "echo hi")));
    let command = words(&["/usr/bin/sh", "-lc", ""]);
    assert_eq!(extract_bash_command(&command), Some(("/usr/bin/sh", "")));
}

#[test]
fn rejects_other_shells_flags_and_shapes() {
    assert_eq!(extract_bash_command(&words(&["fish", "-c", "ls"])), None);
    assert_eq!(extract_bash_command(&words(&["bash", "-x", "ls"])), None);
    assert_eq!(extract_bash_command(&words(&["bash", "-lc"])), None);
    assert_eq!(extract_bash_command(&words(&["bash", "-lc", "ls", "extra"])), None);
    assert_eq!(extract_bash_command(&words(&["/opt/bash/fish", "-lc", "ls"])), None);
}

#[test]
fn syntax_dependent_parses_never_succeed_in_the_browser() {
    assert!(try_parse_shell("ls").is_none());
    assert!(parse_shell_script_into_commands("ls && pwd").is_none());
    assert!(parse_shell_lc_plain_commands(&words(&["bash", "-lc", "ls"])).is_none());
}
