//! Machine readiness probing: the decisions of one probe attempt and the
//! choice of a routable address among those the guest reports.
//!
//! Addresses arrive parsed (the caller parses the guest's strings); an
//! entry that does not parse is `None`.

use vstd::prelude::*;
use crate::agent::{AgentClient, PingResponse};
use crate::error::CoreError;
use crate::text::concat3;
use crate::wire::MIN_AGENT_PROTOCOL_VERSION;

verus! {

/// An IP address, as its 32- or 128-bit value.
#[derive(Debug, Clone, Copy, PartialEq, Eq, Structural)]
pub enum ParsedIp {
    V4(u32),
    V6(u128),
}

/// `127.0.0.0/8` or `::1`.
pub open spec fn is_loopback(a: ParsedIp) -> bool {
    match a {
        ParsedIp::V4(v) => v / 0x100_0000 == 127,
        ParsedIp::V6(v) => v == 1,
    }
}

/// `224.0.0.0/4` or `ff00::/8`.
pub open spec fn is_multicast(a: ParsedIp) -> bool {
    match a {
        ParsedIp::V4(v) => v / 0x1000_0000 == 14,
        ParsedIp::V6(v) => v / 0x100_0000_0000_0000_0000_0000_0000_0000 == 0xff,
    }
}

/// `0.0.0.0` or `::`.
pub open spec fn is_unspecified(a: ParsedIp) -> bool {
    match a {
        ParsedIp::V4(v) => v == 0,
        ParsedIp::V6(v) => v == 0,
    }
}

/// `fe80::/10` (IPv6 only).
pub open spec fn is_unicast_link_local(a: ParsedIp) -> bool {
    match a {
        ParsedIp::V4(_) => false,
        ParsedIp::V6(v) => v / 0x40_0000_0000_0000_0000_0000_0000_0000 == 0x3fa,
    }
}

/// An address that can carry traffic to the guest: not loopback,
/// multicast or unspecified.
pub open spec fn is_routable(a: ParsedIp) -> bool {
    !is_loopback(a) && !is_multicast(a) && !is_unspecified(a)
}

/// Choosing from position `i` on, with the IPv6 candidate found so far:
/// the first routable IPv4 address wins; otherwise the first routable IPv6
/// address that is not link-local.
pub open spec fn pick_from(s: Seq<Option<ParsedIp>>, i: int, v6: Option<ParsedIp>) -> Option<ParsedIp>
    decreases s.len() - i,
{
    if i < 0 || i >= s.len() {
        v6
    } else {
        match s[i] {
            None => pick_from(s, i + 1, v6),
            Some(a) => if !is_routable(a) {
                pick_from(s, i + 1, v6)
            } else {
                match a {
                    ParsedIp::V4(_) => Some(a),
                    ParsedIp::V6(_) => if is_unicast_link_local(a) {
                        pick_from(s, i + 1, v6)
                    } else if v6 is None {
                        pick_from(s, i + 1, Some(a))
                    } else {
                        pick_from(s, i + 1, v6)
                    },
                }
            },
        }
    }
}

fn routable(a: ParsedIp) -> (b: bool)
    ensures
        b == is_routable(a),
{
    match a {
        ParsedIp::V4(v) => v / 0x100_0000 != 127 && v / 0x1000_0000 != 14 && v != 0,
        ParsedIp::V6(v) => v != 1 && v / 0x100_0000_0000_0000_0000_0000_0000_0000 != 0xff && v != 0,
    }
}

fn link_local(a: ParsedIp) -> (b: bool)
    ensures
        b == is_unicast_link_local(a),
{
    match a {
        ParsedIp::V4(_) => false,
        ParsedIp::V6(v) => v / 0x40_0000_0000_0000_0000_0000_0000_0000 == 0x3fa,
    }
}

/// Picks the address to reach a machine by: its first routable IPv4
/// address, else its first routable IPv6 address that is not link-local.
pub fn select_routable_ip(addrs: &[Option<ParsedIp>]) -> (r: Option<ParsedIp>)
    ensures
        r == pick_from(addrs@, 0, None),
{
    let mut v6: Option<ParsedIp> = None;
    let mut i: usize = 0;
    while i < addrs.len()
        invariant
            i <= addrs@.len(),
            pick_from(addrs@, i as int, v6) == pick_from(addrs@, 0, None),
        decreases addrs@.len() - i,
    {
        match addrs[i] {
            None => {},
            Some(a) => {
                if routable(a) {
                    match a {
                        ParsedIp::V4(_) => {
                            return Some(a);
                        },
                        ParsedIp::V6(_) => {
                            if !link_local(a) && v6.is_none() {
                                v6 = Some(a);
                            }
                        },
                    }
                }
            },
        }
        i = i + 1;
    }
    v6
}

/// What a probe does after its ping.
#[derive(Debug, Clone, Copy, PartialEq, Eq, Structural)]
pub enum ProbeNext {
    /// The agent did not answer: no address this attempt.
    Unreachable,
    /// The agent answered with a compatible protocol: ask for its system
    /// information.
    AskSystemInfo,
}

/// One readiness probe, after its ping: an unanswered ping means "not yet";
/// an agent with an incompatible protocol fails the probe (with the
/// protocol refusal); otherwise the probe goes on.
pub fn probe_ip_blocking(ping: Result<PingResponse, CoreError>) -> (r: Result<ProbeNext, CoreError>)
    ensures
        ping is Err ==> r == Ok::<ProbeNext, CoreError>(ProbeNext::Unreachable),
        ping matches Ok(p) ==> (p.protocol_version >= MIN_AGENT_PROTOCOL_VERSION <==> r == Ok::<
            ProbeNext,
            CoreError,
        >(ProbeNext::AskSystemInfo)),
        ping matches Ok(p) ==> (p.protocol_version < MIN_AGENT_PROTOCOL_VERSION <==> r is Err),
{
    match ping {
        Err(_) => Ok(ProbeNext::Unreachable),
        Ok(p) => match AgentClient::check_agent_protocol(&p) {
            Ok(()) => Ok(ProbeNext::AskSystemInfo),
            Err(e) => Err(e),
        },
    }
}

/// The probe's answer from the system information query: the routable
/// address among the reported ones, or none when the query failed.
pub fn probe_system_info(info: Result<Vec<Option<ParsedIp>>, CoreError>) -> (r: Option<ParsedIp>)
    ensures
        match info {
            Ok(v) => r == pick_from(v@, 0, None),
            Err(_) => r is None,
        },
{
    match info {
        Ok(v) => select_routable_ip(v.as_slice()),
        Err(_) => None,
    }
}

/// First pause between readiness probes, in milliseconds.
pub const INITIAL_PROBE_DELAY_MS: u64 = 50;

/// Longest pause between readiness probes, in milliseconds.
pub const MAX_PROBE_DELAY_MS: u64 = 500;

/// The pause after `delay_ms`: half again as long, capped.
pub fn next_probe_delay(delay_ms: u64) -> (next: u64)
    requires
        delay_ms * 3 <= u64::MAX,
    ensures
        next == (if delay_ms * 3 / 2 < MAX_PROBE_DELAY_MS {
            delay_ms * 3 / 2
        } else {
            MAX_PROBE_DELAY_MS as int
        }),
        delay_ms <= MAX_PROBE_DELAY_MS ==> delay_ms <= next <= MAX_PROBE_DELAY_MS,
{
    let grown = delay_ms * 3 / 2;
    if grown < MAX_PROBE_DELAY_MS {
        grown
    } else {
        MAX_PROBE_DELAY_MS
    }
}

/// The error when a machine's agent reported no routable address in time.
pub fn probe_timeout_error(name: &str) -> (e: CoreError)
    ensures
        e matches CoreError::Machine(m) && m@ == "Machine '"@ + name@
            + "' agent did not report a routable IP within timeout"@,
{
    CoreError::Machine(concat3("Machine '", name, "' agent did not report a routable IP within timeout"))
}

} // verus!
