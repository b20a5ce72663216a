//! Capture of the child's stderr.

use hyper_mcp_proxy::once::OnceCell;
use hyper_mcp_proxy::stderr::{
    log_stderr, LineRead, StderrAction, StderrLog, CHILD_STDERR_TARGET,
};
use tokio::io::AsyncBufReadExt;

/// Captures a byte buffer to its end and gives the number of lines logged, and what
/// was to be done about each read.
fn capture(
    bytes: &[u8],
    pid: Option<u32>,
    session_id: &OnceCell<String>,
) -> (u64, Vec<StderrAction>) {
    let runtime = tokio::runtime::Builder::new_current_thread()
        .build()
        .unwrap();
    runtime.block_on(async {
        let mut lines = tokio::io::BufReader::new(bytes).lines();
        let mut log = StderrLog::new(pid);
        let mut actions = Vec::new();
        while log.open {
            let read = match lines.next_line().await {
                Ok(Some(line)) => LineRead::Line(line),
                Ok(None) => LineRead::Eof,
                Err(e) => LineRead::Failed(e.to_string()),
            };
            actions.push(log_stderr(&mut log, read, session_id));
        }
        (log.logged, actions)
    })
}

/// Captures a byte buffer of a session without an id.
fn log_bytes(bytes: &[u8]) -> u64 {
    capture(bytes, Some(1234), &OnceCell::new()).0
}

#[test]
fn test_log_stderr_counts_lines() {
    assert_eq!(log_bytes(b"first\nsecond\nthird\n"), 3);
}

#[test]
fn test_log_stderr_empty_input_logs_nothing() {
    assert_eq!(log_bytes(b""), 0);
}

#[test]
fn test_log_stderr_handles_missing_trailing_newline() {
    // A final partial line (EOF without '\n') must still be logged.
    assert_eq!(log_bytes(b"one\ntwo"), 2);
}

#[test]
fn test_log_stderr_logs_blank_lines() {
    assert_eq!(log_bytes(b"\n\n"), 2);
}

#[test]
fn test_log_stderr_stops_on_invalid_utf8() {
    // Text that is not UTF-8 is a read error; the loop must stop gracefully rather
    // than spin or panic.
    assert_eq!(log_bytes(b"ok\n\xff\xfe\n"), 1);
}

#[test]
fn test_log_stderr_with_populated_session_id() {
    // Session ID present and no PID — exercises the other tag branch.
    let mut session_id: OnceCell<String> = OnceCell::new();
    session_id.set("session-abc".to_string()).unwrap();

    let (n, actions) = capture(&b"line\n"[..], None, &session_id);
    assert_eq!(n, 1);
    match &actions[0] {
        StderrAction::Log { pid, session_id, line } => {
            assert_eq!(*pid, None);
            assert_eq!(session_id, "session-abc");
            assert_eq!(line, "line");
        }
        _ => panic!("expected a line"),
    }
    assert!(matches!(actions[1], StderrAction::Stop));
}

#[test]
fn stderr_failure_is_warned_of_under_the_pid() {
    let (n, actions) = capture(b"ok\n\xff\nlost\n", Some(7), &OnceCell::new());
    assert_eq!(n, 1);
    assert_eq!(actions.len(), 2);
    match &actions[1] {
        StderrAction::Warn { pid, error } => {
            assert_eq!(*pid, Some(7));
            assert!(error.contains("utf-8"));
        }
        _ => panic!("expected a warning"),
    }
}

#[test]
fn stderr_looks_the_session_up_for_each_line() {
    let mut session_id: OnceCell<String> = OnceCell::new();
    let mut log = StderrLog::new(Some(1));
    let early = log_stderr(&mut log, LineRead::Line("a".to_string()), &session_id);
    session_id.set("late".to_string()).unwrap();
    let later = log_stderr(&mut log, LineRead::Line("b".to_string()), &session_id);
    match (early, later) {
        (
            StderrAction::Log { session_id: before, .. },
            StderrAction::Log { session_id: after, .. },
        ) => {
            assert_eq!(before, "<unknown>");
            assert_eq!(after, "late");
        }
        _ => panic!("expected two lines"),
    }
    assert_eq!(log.logged, 2);
}

#[test]
fn stderr_logs_nothing_once_it_stopped() {
    let session_id: OnceCell<String> = OnceCell::new();
    let mut log = StderrLog::new(None);
    assert!(matches!(
        log_stderr(&mut log, LineRead::Eof, &session_id),
        StderrAction::Stop
    ));
    assert!(matches!(
        log_stderr(&mut log, LineRead::Line("x".to_string()), &session_id),
        StderrAction::Stop
    ));
    assert!(matches!(
        log_stderr(&mut log, LineRead::Failed("x".to_string()), &session_id),
        StderrAction::Stop
    ));
    assert_eq!(log.logged, 0);
    assert!(!log.open);
}

#[test]
fn stderr_target_is_the_documented_one() {
    assert_eq!(CHILD_STDERR_TARGET, "child_stderr");
}

#[test]
fn stderr_warning_tells_the_error_as_it_is() {
    let mut log = StderrLog::new(Some(9));
    let action = log_stderr(
        &mut log,
        LineRead::Failed("broken pipe".to_string()),
        &OnceCell::new(),
    );
    match action {
        StderrAction::Warn { pid, error } => {
            assert_eq!(pid, Some(9));
            assert_eq!(error, "broken pipe");
        }
        _ => panic!("expected a warning"),
    }
    assert!(!log.open);
}

#[test]
fn stderr_counts_add_up() {
    for a in [&b""[..], b"one\n", b"one\n\ntwo\n"] {
        for b in [&b""[..], b"x", b"x\ny\n", b"x\n\xff\ny\n", b"\xff"] {
            let whole = [a, b].concat();
            assert_eq!(log_bytes(&whole), log_bytes(a) + log_bytes(b));
        }
    }
}

#[test]
fn stderr_counts_a_last_line_with_or_without_its_end() {
    for line in [&b"x"[..], b"x\ny", b"\n\nz"] {
        assert_eq!(log_bytes(line), log_bytes(&[line, b"\n"].concat()));
    }
}

#[test]
fn stderr_counts_nothing_after_the_first_failure() {
    for rest in [&b""[..], b"more\n", b"\xff\nmore\nlines\n"] {
        assert_eq!(log_bytes(&[b"a\nb\n\xff\n", rest].concat()), 2);
    }
}
