//! A continuous TCP-connectivity latency probe, as a verified core.
//!
//! The probe repeatedly waits a configured interval, attempts a TCP
//! handshake against a fixed destination, and emits an error-level log
//! record when the connection fails or when the measured latency strictly
//! exceeds a configured threshold. The decisions of that loop — which
//! command to perform next, how to classify an outcome, what to log — live
//! here and are verified; the blocking delay, the socket and the logging
//! backend are driven by an unverified shell around this crate.

pub mod params;
pub mod probe;
pub mod laws;
