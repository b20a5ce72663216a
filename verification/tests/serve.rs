//! Start and end of the program.

use hyper_mcp_proxy::decimal::decimal;
use hyper_mcp_proxy::serve::{bind_address, server_config, DEFAULT_LOG_FILTER};
use hyper_mcp_proxy::shutdown::{shutdown_signal, ShutdownEvent, ShutdownLog, ShutdownWait};

#[test]
fn bind_address_joins_host_and_port() {
    assert_eq!(bind_address("127.0.0.1", 8080), "127.0.0.1:8080");
    assert_eq!(bind_address("[::1]", 0), "[::1]:0");
    assert_eq!(bind_address("0.0.0.0", 65535), "0.0.0.0:65535");
}

#[test]
fn bind_address_tells_ports_apart() {
    assert_ne!(bind_address("h", 80), bind_address("h", 8));
    assert_ne!(bind_address("h:8", 0), bind_address("h", 80));
}

#[test]
fn decimal_is_the_shortest_notation() {
    assert_eq!(decimal(0), "0");
    assert_eq!(decimal(9), "9");
    assert_eq!(decimal(10), "10");
    assert_eq!(decimal(1234567890), "1234567890");
    assert_eq!(decimal(u64::MAX), "18446744073709551615");
}

#[test]
fn decimal_is_read_back() {
    for number in [0u64, 7, 10, 99, 100, 8080, 65535, u64::MAX] {
        assert_eq!(decimal(number).parse::<u64>(), Ok(number));
    }
}

#[test]
fn default_log_filter_is_the_documented_one() {
    assert_eq!(DEFAULT_LOG_FILTER, "info,hyper_streamable_http=debug");
}

#[test]
fn server_config_accepts_any_host_and_keeps_the_other_defaults() {
    let config = server_config();
    assert!(config.allowed_hosts.is_empty());
    assert!(config.allowed_origins.is_empty());
    assert_eq!(
        config.sse_keep_alive,
        Some(std::time::Duration::from_secs(15))
    );
    assert_eq!(config.sse_retry, Some(std::time::Duration::from_secs(3)));
    assert!(config.stateful_mode);
    assert!(!config.json_response);
    assert!(config.session_store.is_none());
}

/// The log lines of a wait, and where it ended.
fn run(events: &[ShutdownEvent]) -> (ShutdownWait, Vec<&'static str>) {
    let mut wait = ShutdownWait::Installing;
    let mut lines = Vec::new();
    for event in events {
        if let Some(line) = shutdown_signal(&mut wait, *event).message() {
            lines.push(line);
        }
    }
    (wait, lines)
}

#[test]
fn shutdown_on_interrupt_or_termination() {
    let (wait, lines) = run(&[ShutdownEvent::Installed, ShutdownEvent::Interrupt]);
    assert!(wait == ShutdownWait::Over);
    assert_eq!(lines, vec!["received SIGINT"]);

    let (wait, lines) = run(&[ShutdownEvent::Installed, ShutdownEvent::Terminate]);
    assert!(wait == ShutdownWait::Over);
    assert_eq!(lines, vec!["received SIGTERM"]);
}

#[test]
fn shutdown_falls_back_to_the_interrupt() {
    let (wait, lines) = run(&[ShutdownEvent::InstallFailed, ShutdownEvent::Terminate]);
    assert!(wait == ShutdownWait::InterruptOnly);
    assert_eq!(
        lines,
        vec!["failed to install SIGTERM handler; falling back to SIGINT only"]
    );

    let (wait, lines) = run(&[ShutdownEvent::InstallFailed, ShutdownEvent::Interrupt]);
    assert!(wait == ShutdownWait::Over);
    assert_eq!(lines[1], "received SIGINT");
}

#[test]
fn shutdown_without_termination_signal() {
    let (wait, lines) = run(&[ShutdownEvent::Unsupported, ShutdownEvent::Interrupt]);
    assert!(wait == ShutdownWait::Over);
    assert_eq!(lines, vec!["received shutdown signal"]);
}

#[test]
fn shutdown_happens_once() {
    let (wait, lines) = run(&[
        ShutdownEvent::Installed,
        ShutdownEvent::Terminate,
        ShutdownEvent::Interrupt,
        ShutdownEvent::InstallFailed,
    ]);
    assert!(wait == ShutdownWait::Over);
    assert_eq!(lines, vec!["received SIGTERM"]);

    let (wait, lines) = run(&[ShutdownEvent::Installed, ShutdownEvent::Installed]);
    assert!(wait == ShutdownWait::Either);
    assert!(lines.is_empty());
    assert_eq!(ShutdownLog::Quiet.message(), None);
}
