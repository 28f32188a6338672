//! Latency-probing core: validates a requested target against a fixed
//! allow-list, prepares the HTTPS address to probe, and classifies the
//! outcome of a timed HEAD exchange into a result record.
//!
//! The network exchange itself (a fresh HTTPS connection, timed from
//! request start to settlement) is performed by the embedding program;
//! this crate holds the logic around it: which targets may be probed at
//! all, how the client must be configured so that every probe pays the
//! full connection cost, and how a transport outcome and a measured
//! elapsed time become the reported `PingResult`.

pub mod allowlist;
pub mod policy;
pub mod probe;

pub use allowlist::allowed;
pub use allowlist::allowed_targets;
pub use allowlist::is_allowed;
pub use allowlist::probe_url;
pub use allowlist::rejection_message;
pub use allowlist::validate_target;
pub use policy::ConnectionPolicy;
pub use policy::PROBE_TIMEOUT_MS;
pub use probe::classify;
pub use probe::classified;
pub use probe::is_success_status;
pub use probe::lemma_classification_deterministic;
pub use probe::lemma_response_preserves_latency;
pub use probe::lemma_transport_failure_zero_latency;
pub use probe::PingResult;
