//! Where the program listens, whom it serves and how much it logs.

use rmcp::transport::StreamableHttpServerConfig;
use vstd::prelude::*;
use vstd::string::StringExecFns;

use crate::decimal::{decimal, decimal_text, decimal_value, law_decimal_round_trip, law_no_leading_zero};
use crate::keep_alive::NANOS_PER_SECOND;

verus! {

/// What is logged unless the environment says otherwise.
pub const DEFAULT_LOG_FILTER: &'static str = "info,hyper_streamable_http=debug";

/// rmcp's settings of an HTTP service: the collections of the hosts and origins that it
/// accepts, with its timing and its modes.
#[verifier::external_type_specification]
#[verifier::external_body]
pub struct ExStreamableHttpServerConfig(StreamableHttpServerConfig);

/// The hosts that requests have to name; any will do when there is none.
pub uninterp spec fn allowed_hosts(config: StreamableHttpServerConfig) -> Seq<Seq<char>>;

/// The browser origins that requests may come from; any will do when there is none.
pub uninterp spec fn allowed_origins(config: StreamableHttpServerConfig) -> Seq<Seq<char>>;

/// The interval of pings and that of reconnection on event streams, in nanoseconds.
pub uninterp spec fn stream_intervals(config: StreamableHttpServerConfig) -> Seq<Option<nat>>;

/// Whether there are sessions, whether answers are plain JSON, and whether sessions are
/// stored outside of the process.
pub uninterp spec fn service_modes(config: StreamableHttpServerConfig) -> Seq<bool>;

/// The intervals that rmcp gives a service by default: 15 seconds and 3 seconds.
pub open spec fn default_intervals() -> Seq<Option<nat>> {
    seq![Some(15 * NANOS_PER_SECOND as nat), Some(3 * NANOS_PER_SECOND as nat)]
}

/// The modes that rmcp gives a service by default: sessions, answered in event streams
/// and kept in the process.
pub open spec fn default_modes() -> Seq<bool> {
    seq![true, false, false]
}

/// Calls `StreamableHttpServerConfig::default`: requests have to name a loopback host,
/// their origin does not matter, and the rest is rmcp's default.
#[verifier::external_body]
fn default_config() -> (config: StreamableHttpServerConfig)
    ensures
        allowed_hosts(config) == seq!["localhost"@, "127.0.0.1"@, "::1"@],
        allowed_origins(config) == Seq::<Seq<char>>::empty(),
        stream_intervals(config) == default_intervals(),
        service_modes(config) == default_modes(),
{
    StreamableHttpServerConfig::default()
}

/// Calls `StreamableHttpServerConfig::disable_allowed_hosts`: requests may name any
/// host, and nothing else changes.
#[verifier::external_body]
fn without_allowed_hosts(config: StreamableHttpServerConfig) -> (relaxed: StreamableHttpServerConfig)
    ensures
        allowed_hosts(relaxed) == Seq::<Seq<char>>::empty(),
        allowed_origins(relaxed) == allowed_origins(config),
        stream_intervals(relaxed) == stream_intervals(config),
        service_modes(relaxed) == service_modes(config),
{
    config.disable_allowed_hosts()
}

/// The settings of the HTTP service: no request is turned away for the host that it
/// names or the origin that it comes from, for access control is a matter of the
/// network; the rest is rmcp's default.
pub fn server_config() -> (config: StreamableHttpServerConfig)
    ensures
        allowed_hosts(config) == Seq::<Seq<char>>::empty(),
        allowed_origins(config) == Seq::<Seq<char>>::empty(),
        stream_intervals(config) == default_intervals(),
        service_modes(config) == default_modes(),
        stream_intervals(config) == seq![Some(15_000_000_000nat), Some(3_000_000_000nat)],
        service_modes(config) == seq![true, false, false],
{
    without_allowed_hosts(default_config())
}

/// An address to bind: the host, a colon, and the port in decimal.
pub open spec fn address_text(host: Seq<char>, port: u16) -> Seq<char> {
    host + ":"@ + decimal_text(port as nat)
}

/// The address to bind, as text.
pub fn bind_address(host: &str, port: u16) -> (address: String)
    ensures
        address@ == address_text(host@, port),
        address@.len() > host@.len() + 1,
        address@.take(host@.len() as int) == host@,
        address@[host@.len() as int] == ':',
        decimal_value(address@.skip(host@.len() as int + 1)) == Some(port as int),
        forall|i: int|
            host@.len() < i < address@.len() ==> '0' <= #[trigger] address@[i] <= '9',
        port > 0 ==> address@[host@.len() as int + 1] != '0',
        port == 0 ==> address@.len() == host@.len() + 2,
{
    proof {
        law_address_reads_back(host@, port);
    }
    host.to_owned().concat(":").concat(decimal(port as u64).as_str())
}

/// The address tells the host and the port: addresses are the same only where both
/// are.
pub proof fn law_address_is_unambiguous(host: Seq<char>, port: u16, other: Seq<char>, second: u16)
    requires
        address_text(host, port) == address_text(other, second),
    ensures
        host == other,
        port == second,
{
    reveal_strlit(":");
    law_decimal_round_trip(port as nat);
    law_decimal_round_trip(second as nat);
    let address = address_text(host, port);
    let digits = decimal_text(port as nat);
    let others = decimal_text(second as nat);
    assert(":"@.len() == 1);
    assert(address.len() == host.len() + 1 + digits.len());
    assert(address.len() == other.len() + 1 + others.len());
    assert(address[host.len() as int] == ':');
    assert(address_text(other, second)[other.len() as int] == ':');
    if host.len() < other.len() {
        assert(address[other.len() as int] == digits[other.len() - host.len() - 1]);
        assert('0' <= digits[other.len() - host.len() - 1] <= '9');
    }
    if other.len() < host.len() {
        assert(address[host.len() as int] == others[host.len() - other.len() - 1]);
        assert('0' <= others[host.len() - other.len() - 1] <= '9');
    }
    assert(address.take(host.len() as int) =~= host);
    assert(address.take(host.len() as int) =~= other);
    assert(address.skip((host.len() + 1) as int) =~= digits);
    assert(address.skip((host.len() + 1) as int) =~= others);
}

/// Reading the address back gives what it was made from: it is the host, then a colon,
/// then a run of digits, without a leading zero, whose value is the port.
pub proof fn law_address_reads_back(host: Seq<char>, port: u16)
    ensures
        address_text(host, port).len() > host.len() + 1,
        address_text(host, port).take(host.len() as int) == host,
        address_text(host, port)[host.len() as int] == ':',
        decimal_value(address_text(host, port).skip(host.len() as int + 1)) == Some(port as int),
        forall|i: int|
            host.len() < i < address_text(host, port).len() ==> '0' <= #[trigger] address_text(
                host,
                port,
            )[i] <= '9',
        port > 0 ==> address_text(host, port)[host.len() as int + 1] != '0',
        port == 0 ==> address_text(host, port).len() == host.len() + 2,
{
    reveal_strlit(":");
    law_decimal_round_trip(port as nat);
    law_no_leading_zero(port as nat);
    let digits = decimal_text(port as nat);
    let address = address_text(host, port);
    assert(":"@.len() == 1);
    assert(address.len() == host.len() + 1 + digits.len());
    assert(address.take(host.len() as int) =~= host);
    assert(address.skip(host.len() as int + 1) =~= digits);
    assert forall|i: int| host.len() < i < address.len() implies '0' <= #[trigger] address[i]
        <= '9' by {
        assert(address[i] == digits[i - host.len() - 1]);
    }
}

} // verus!
