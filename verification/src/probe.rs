//! The probe result record and the classification of a probe outcome.

use vstd::prelude::*;

verus! {

/// The record a probe returns: whether the target answered with a
/// success status, and the measured round-trip time in whole
/// milliseconds.
#[derive(Clone, Copy, Debug, PartialEq, Eq, Structural)]
pub struct PingResult {
    pub success: bool,
    pub latency_ms: u64,
}

/// An HTTP status code counts as success exactly when it lies in the
/// 2xx range.
pub open spec fn is_success_status(code: u16) -> bool {
    200 <= code && code <= 299
}

/// What a probe reports, as a function of the transport outcome and the
/// measured elapsed time.
///
/// `Some(code)` means the transport completed and an HTTP response with
/// that status code came back: the measurement is valid and is reported
/// whatever the status, while `success` tracks the 2xx range alone.
/// `None` means a transport-level failure (DNS, connect, TLS, timeout):
/// the elapsed time is deliberately discarded and zero is reported.
pub open spec fn classified(status: Option<u16>, elapsed_ms: u64) -> PingResult {
    match status {
        Some(code) => PingResult { success: is_success_status(code), latency_ms: elapsed_ms },
        None => PingResult { success: false, latency_ms: 0 },
    }
}

/// Turn the settled outcome of the HEAD exchange into the reported
/// record. `status` is the response's status code where the transport
/// completed, `None` on any transport-level failure; `elapsed_ms` is
/// the wall-clock time measured around the exchange.
pub fn classify(status: Option<u16>, elapsed_ms: u64) -> (r: PingResult)
    ensures
        r == classified(status, elapsed_ms),
{
    match status {
        Some(code) => PingResult { success: 200 <= code && code <= 299, latency_ms: elapsed_ms },
        None => PingResult { success: false, latency_ms: 0 },
    }
}

/// A transport-level failure never reports success and never reports a
/// stale timer value: whatever time actually elapsed before the
/// transport gave up, the reported latency is zero.
pub proof fn lemma_transport_failure_zero_latency(elapsed_ms: u64)
    ensures
        !classified(None, elapsed_ms).success,
        classified(None, elapsed_ms).latency_ms == 0,
{
}

/// Any received HTTP response counts as a valid measurement: the
/// reported latency is exactly the elapsed time handed in, whatever the
/// status, and `success` holds exactly for the 2xx range. In
/// particular a non-2xx response is told apart from a transport failure
/// by its preserved, generally nonzero, latency.
pub proof fn lemma_response_preserves_latency(code: u16, elapsed_ms: u64)
    ensures
        classified(Some(code), elapsed_ms).latency_ms == elapsed_ms,
        classified(Some(code), elapsed_ms).success == is_success_status(code),
{
}

/// Classification is a pure function of the settled outcome: two probes
/// whose transport outcomes and measured times agree report identical
/// records, and every record has the same shape, a boolean flag beside
/// a non-negative integer latency.
pub proof fn lemma_classification_deterministic(
    status1: Option<u16>,
    elapsed1: u64,
    status2: Option<u16>,
    elapsed2: u64,
)
    requires
        status1 == status2,
        elapsed1 == elapsed2,
    ensures
        classified(status1, elapsed1) == classified(status2, elapsed2),
        classified(status1, elapsed1).latency_ms >= 0,
{
}

} // verus!
