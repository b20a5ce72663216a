//! The idle timeout of sessions.

use std::time::Duration;

use hyper_mcp_proxy::keep_alive::{apply_session_keep_alive, session_manager};
use rmcp::transport::streamable_http_server::session::local::LocalSessionManager;

#[test]
fn apply_session_keep_alive_none_preserves_rmcp_default() {
    let mut manager = LocalSessionManager::default();
    let original = manager.session_config.keep_alive;

    apply_session_keep_alive(&mut manager, None);

    assert_eq!(
        manager.session_config.keep_alive, original,
        "None must not mutate the rmcp default"
    );
}

#[test]
fn apply_session_keep_alive_zero_disables_timeout() {
    let mut manager = LocalSessionManager::default();
    // Pre-seed with a value so we can detect that it gets cleared.
    manager.session_config.keep_alive = Some(Duration::from_secs(300));

    apply_session_keep_alive(&mut manager, Some(0));

    assert!(
        manager.session_config.keep_alive.is_none(),
        "Some(0) must disable the idle timeout"
    );
}

#[test]
fn apply_session_keep_alive_some_n_sets_n_seconds() {
    let mut manager = LocalSessionManager::default();

    apply_session_keep_alive(&mut manager, Some(7));

    assert_eq!(
        manager.session_config.keep_alive,
        Some(Duration::from_secs(7)),
    );
}

#[test]
fn apply_session_keep_alive_overwrites_previous_value() {
    let mut manager = LocalSessionManager::default();
    manager.session_config.keep_alive = Some(Duration::from_secs(60));

    apply_session_keep_alive(&mut manager, Some(1));

    assert_eq!(
        manager.session_config.keep_alive,
        Some(Duration::from_secs(1)),
    );
}

#[test]
fn apply_session_keep_alive_handles_large_values() {
    let mut manager = LocalSessionManager::default();

    apply_session_keep_alive(&mut manager, Some(86_400));

    assert_eq!(
        manager.session_config.keep_alive,
        Some(Duration::from_secs(86_400)),
    );
}

#[test]
fn keep_alive_takes_the_largest_number_of_seconds() {
    let mut manager = LocalSessionManager::default();
    apply_session_keep_alive(&mut manager, Some(u64::MAX));
    assert_eq!(
        manager.session_config.keep_alive,
        Some(Duration::from_secs(u64::MAX)),
    );
}

#[test]
fn keep_alive_applied_twice_is_applied_once() {
    let mut manager = session_manager(Some(9));
    apply_session_keep_alive(&mut manager, Some(9));
    assert_eq!(
        manager.session_config.keep_alive,
        Some(Duration::from_secs(9)),
    );
}

#[test]
fn session_manager_without_flag_has_the_library_defaults() {
    let manager = session_manager(None);
    assert_eq!(
        manager.session_config.keep_alive,
        Some(Duration::from_secs(5 * 60)),
    );
    assert_eq!(manager.session_config.channel_capacity, 16);
    assert_eq!(
        manager.session_config.sse_retry,
        Some(Duration::from_secs(3)),
    );
    assert_eq!(
        manager.session_config.completed_cache_ttl,
        Duration::from_secs(60),
    );
    assert_eq!(
        manager.session_config.init_timeout,
        Some(Duration::from_secs(60)),
    );
}

#[test]
fn session_manager_with_flag_changes_the_idle_timeout_alone() {
    let manager = session_manager(Some(2));
    assert_eq!(
        manager.session_config.keep_alive,
        Some(Duration::from_secs(2)),
    );
    assert_eq!(manager.session_config.channel_capacity, 16);
    assert_eq!(
        manager.session_config.sse_retry,
        Some(Duration::from_secs(3)),
    );
    assert_eq!(session_manager(Some(0)).session_config.keep_alive, None);
}
