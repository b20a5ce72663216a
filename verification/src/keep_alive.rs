//! The idle timeout of sessions.

use rmcp::transport::streamable_http_server::session::local::LocalSessionManager;
use vstd::prelude::*;

verus! {

/// rmcp's collection of the sessions in progress, with the limits that they have.
#[verifier::external_type_specification]
#[verifier::external_body]
pub struct ExLocalSessionManager(LocalSessionManager);

/// Nanoseconds in a second.
pub const NANOS_PER_SECOND: u64 = 1_000_000_000;

/// The idle timeout that a manager gives its sessions, in nanoseconds.
pub uninterp spec fn idle_timeout(manager: LocalSessionManager) -> Option<nat>;

/// The other limits that a manager gives its sessions: the channel capacity, the SSE
/// retry interval, the lifetime of completed caches and the initialization timeout,
/// the durations in nanoseconds.
pub uninterp spec fn other_limits(manager: LocalSessionManager) -> Seq<Option<nat>>;

/// The limits besides the idle timeout that rmcp gives sessions by default: 16
/// messages, 3 seconds, 60 seconds and 60 seconds.
pub open spec fn default_limits() -> Seq<Option<nat>> {
    seq![
        Some(16nat),
        Some(3 * NANOS_PER_SECOND as nat),
        Some(60 * NANOS_PER_SECOND as nat),
        Some(60 * NANOS_PER_SECOND as nat),
    ]
}

/// Calls `LocalSessionManager::default`: sessions are reaped after five idle minutes,
/// and the other limits are the default ones.
#[verifier::external_body]
fn default_manager() -> (manager: LocalSessionManager)
    ensures
        idle_timeout(manager) == Some(300 * NANOS_PER_SECOND as nat),
        other_limits(manager) == default_limits(),
{
    LocalSessionManager::default()
}

/// Assigns `LocalSessionManager::session_config.keep_alive`, through
/// `Duration::from_secs`: only the idle timeout changes.
#[verifier::external_body]
fn set_idle_timeout(manager: &mut LocalSessionManager, seconds: Option<u64>)
    ensures
        idle_timeout(*final(manager)) == whole_seconds(seconds),
        seconds is None ==> idle_timeout(*final(manager)) is None,
        seconds is Some ==> idle_timeout(*final(manager)) == Some(
            (seconds->0 * 1_000_000_000) as nat,
        ),
        other_limits(*final(manager)) == other_limits(*old(manager)),
{
    manager.session_config.keep_alive = seconds.map(std::time::Duration::from_secs);
}

/// A number of seconds, in nanoseconds.
pub open spec fn whole_seconds(seconds: Option<u64>) -> Option<nat> {
    match seconds {
        Some(n) => Some((n * NANOS_PER_SECOND) as nat),
        None => None,
    }
}

/// The idle timeout that the operator's flag leaves in place of `current`.
pub open spec fn timeout_after(current: Option<nat>, value: Option<u64>) -> Option<nat> {
    match value {
        None => current,
        Some(n) => if n == 0 {
            None
        } else {
            whole_seconds(Some(n))
        },
    }
}

/// Applies the operator's `--session-keep-alive` flag to a session manager.
///
/// - `None` leaves the manager's own timeout in place.
/// - `Some(0)` disables the idle timeout.
/// - `Some(n)` sets the idle timeout to `n` seconds.
pub fn apply_session_keep_alive(manager: &mut LocalSessionManager, value: Option<u64>)
    ensures
        idle_timeout(*final(manager)) == timeout_after(idle_timeout(*old(manager)), value),
        other_limits(*final(manager)) == other_limits(*old(manager)),
        value is None ==> *final(manager) == *old(manager),
        value == Some(0u64) ==> idle_timeout(*final(manager)) is None,
        value is Some && value->0 > 0 ==> idle_timeout(*final(manager)) == Some(
            (value->0 * 1_000_000_000) as nat,
        ),
{
    match value {
        None => {},
        Some(0) => set_idle_timeout(manager, None),
        Some(n) => set_idle_timeout(manager, Some(n)),
    }
}

/// The manager of the sessions of one run: rmcp's own, with the operator's flag
/// applied. Without the flag, rmcp's defaults govern.
pub fn session_manager(value: Option<u64>) -> (manager: LocalSessionManager)
    ensures
        idle_timeout(manager) == timeout_after(Some(300 * NANOS_PER_SECOND as nat), value),
        other_limits(manager) == default_limits(),
        value is None ==> idle_timeout(manager) == Some(300_000_000_000nat),
        value == Some(0u64) ==> idle_timeout(manager) is None,
        value is Some && value->0 > 0 ==> idle_timeout(manager) == Some(
            (value->0 * 1_000_000_000) as nat,
        ),
        other_limits(manager) == seq![
            Some(16nat),
            Some(3_000_000_000nat),
            Some(60_000_000_000nat),
            Some(60_000_000_000nat),
        ],
{
    let mut manager: LocalSessionManager = default_manager();
    apply_session_keep_alive(&mut manager, value);
    manager
}

/// The flag overwrites whatever timeout was there before, and applying it twice is
/// applying it once.
pub proof fn law_flag_overwrites(first: Option<nat>, second: Option<nat>, value: Option<u64>)
    ensures
        value is Some ==> timeout_after(first, value) == timeout_after(second, value),
        timeout_after(timeout_after(first, value), value) == timeout_after(first, value),
{
}

/// A session is never reaped for being idle exactly when the operator passed zero:
/// every other value that is passed gives a timeout, and longer values longer ones.
pub proof fn law_only_zero_disables(current: Option<nat>, shorter: u64, longer: u64)
    requires
        shorter < longer,
    ensures
        timeout_after(current, Some(shorter)) is None <==> shorter == 0,
        timeout_after(current, Some(longer)) is Some,
        shorter > 0 ==> timeout_after(current, Some(shorter))->0 < timeout_after(
            current,
            Some(longer),
        )->0,
{
}

/// The flag counts in seconds: a value other than zero gives a timeout of exactly that
/// many times a thousand million nanoseconds, so that two values in a row differ by one
/// second; zero gives none; and without the flag the timeout stays what it was.
pub proof fn law_flag_counts_seconds(current: Option<nat>, seconds: u64)
    ensures
        timeout_after(current, None) == current,
        timeout_after(current, Some(0)) is None,
        seconds > 0 ==> timeout_after(current, Some(seconds)) == Some(
            (seconds * 1_000_000_000) as nat,
        ),
        0 < seconds < u64::MAX ==> timeout_after(current, Some((seconds + 1) as u64))->0
            == timeout_after(current, Some(seconds))->0 + 1_000_000_000,
        whole_seconds(None) is None,
        whole_seconds(Some(seconds)) == Some((seconds * 1_000_000_000) as nat),
{
}

} // verus!
