//! A bounded, validated network reachability probe.
//!
//! The crate decides and performs no I/O. A caller asks the [`Prober`] to
//! admit a target, carries out the one HEAD request that the prober hands
//! back, and reports what the transport observed; the prober turns that
//! report into a [`PingResult`]. [`Prober::probe`] does all three around a
//! transport given as a closure.

pub mod laws;
pub mod policy;
pub mod probe;
pub mod text;

pub use crate::policy::{AllowPolicy, ValidationError, ALLOWED_DOMAIN};
pub use crate::probe::{PingResult, ProbeRequest, Prober, TransportOutcome, PROBE_TIMEOUT_SECS};
