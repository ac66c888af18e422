//! The probe's configuration: a resolved destination and the knobs that
//! the loop consults. These values are produced once at startup, validated
//! by then, and never change while the loop runs.

use vstd::prelude::*;

verus! {

/// A resolved network address: the integer form of an IPv4 or IPv6 address.
#[derive(Clone, Copy, Debug, PartialEq, Eq, Structural)]
pub enum IpAddress {
    /// An IPv4 address as its 32-bit big-endian integer value.
    V4(u32),
    /// An IPv6 address as its 128-bit big-endian integer value.
    V6(u128),
}

/// A resolved network endpoint: an address and a port. Resolution happens
/// once, before the loop starts; the loop only hands the endpoint to each
/// connection attempt and never inspects it.
#[derive(Clone, Copy, Debug, PartialEq, Eq, Structural)]
pub struct Destination {
    pub ip: IpAddress,
    pub port: u16,
}

/// How log lines are stamped. Opaque to the probe loop: it is handed
/// through to the logging backend unchanged.
#[derive(Clone, Copy, Debug, PartialEq, Eq, Structural)]
pub enum TimestampStyle {
    Off,
    Seconds,
    Milliseconds,
    Nanoseconds,
}

/// Everything the probe loop needs, created once at startup and owned by
/// the loop for its whole lifetime.
#[derive(Clone, Copy, Debug, PartialEq, Eq, Structural)]
pub struct ProbeParameters {
    /// Where to connect.
    pub destination: Destination,
    /// Delay, in milliseconds, performed before every connection attempt,
    /// the first included.
    pub interval_millis: u64,
    /// Successful probes whose latency strictly exceeds this many
    /// milliseconds are logged as errors.
    pub latency_threshold_millis: u128,
    /// How detailed the log output is; handed through to the sink.
    pub verbosity: usize,
    /// Suppresses log output; handed through to the sink.
    pub quiet: bool,
    /// Timestamp style for log lines; handed through to the sink.
    pub timestamps: TimestampStyle,
}

} // verus!
