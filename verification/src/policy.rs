//! The process-wide connection policy: the fixed client configuration
//! that makes every probe pay the full connection cost.
//!
//! The settings exist so that a probe never rides a warm connection:
//! HTTP/1.1 only, no idle-connection pooling, no keep-alive, and a hard
//! request timeout. They are constructed once at process start and
//! shared read-only by every probe; the embedding program configures
//! its HTTP client from this record.

use vstd::prelude::*;

verus! {

/// The hard per-request timeout, in milliseconds, measured from request
/// start; on expiry the probe settles as a transport failure rather
/// than hanging.
pub const PROBE_TIMEOUT_MS: u64 = 5000;

/// How the HTTP client behaves for every probe. Fixed at startup and
/// never changed at runtime.
#[derive(Clone, Copy, Debug, PartialEq, Eq, Structural)]
pub struct ConnectionPolicy {
    /// Hard request timeout in milliseconds.
    pub timeout_ms: u64,
    /// Restrict the protocol to HTTP/1.1.
    pub http1_only: bool,
    /// Maximum idle connections kept per host; zero forbids pooling.
    pub max_idle_per_host: usize,
    /// How long an idle connection may be kept, in milliseconds; zero
    /// means connections are never kept warm.
    pub idle_timeout_ms: u64,
    /// Whether TCP keep-alive probes are sent on open connections.
    pub tcp_keepalive: bool,
}

impl ConnectionPolicy {
    /// The settings that force a brand-new connection per probe, so the
    /// measured latency covers DNS + TCP + TLS + HTTP in full.
    pub open spec fn forces_fresh_connections(self) -> bool {
        &&& self.http1_only
        &&& self.max_idle_per_host == 0
        &&& self.idle_timeout_ms == 0
        &&& !self.tcp_keepalive
    }

    /// The policy is exactly the fixed configuration: fresh connections
    /// only, with the hard timeout.
    pub open spec fn wf(self) -> bool {
        &&& self.forces_fresh_connections()
        &&& self.timeout_ms == PROBE_TIMEOUT_MS
    }

    /// Construct the one policy the process uses.
    pub fn new() -> (p: ConnectionPolicy)
        ensures
            p.wf(),
            p == (ConnectionPolicy {
                timeout_ms: PROBE_TIMEOUT_MS,
                http1_only: true,
                max_idle_per_host: 0,
                idle_timeout_ms: 0,
                tcp_keepalive: false,
            }),
    {
        ConnectionPolicy {
            timeout_ms: PROBE_TIMEOUT_MS,
            http1_only: true,
            max_idle_per_host: 0,
            idle_timeout_ms: 0,
            tcp_keepalive: false,
        }
    }
}

} // verus!
