//! The probe loop's core: one delay-then-connect-then-classify cycle,
//! repeated forever. The loop is a two-phase state machine. In each phase
//! exactly one command is pending — perform the interval delay, or attempt
//! a connection — and the shell that performs the command reports back what
//! happened. Classification of a finished attempt is the only decision:
//! a failure is always logged, a success only when its latency strictly
//! exceeds the threshold.

use vstd::prelude::*;
use crate::params::{Destination, ProbeParameters};

verus! {

/// What one connection attempt came to: established after the measured
/// wall-clock time, or failed with a reason. Produced and consumed within
/// a single cycle; the loop keeps no memory of prior outcomes.
#[derive(Clone, Debug, PartialEq, Eq)]
pub enum ProbeOutcome {
    /// The handshake completed; the latency is the wall-clock time from
    /// initiating the connection to its establishment, in milliseconds.
    Success { latency_millis: u128 },
    /// The connection could not be established (refused, unreachable, or
    /// any other error while connecting), with the failure detail.
    Failure { detail: String },
}

/// An error-level log record that a cycle can emit: its only observable
/// output.
#[derive(Clone, Debug, PartialEq, Eq)]
pub enum LogRecord {
    /// The probe succeeded but took longer than allowed; carries both the
    /// configured threshold and the measured latency.
    LatencyAboveThreshold { threshold_millis: u128, latency_millis: u128 },
    /// The probe failed outright; carries the failure detail.
    ConnectionFailed { detail: String },
}

/// Where the loop stands within the current cycle.
#[derive(Clone, Copy, Debug, PartialEq, Eq, Structural)]
pub enum ProbePhase {
    /// The interval delay has not elapsed yet; no connection may be
    /// attempted before it has.
    AwaitingDelay,
    /// The delay has elapsed; a connection attempt is due.
    AwaitingConnect,
}

/// What the shell must do next on the loop's behalf.
#[derive(Clone, Copy, Debug, PartialEq, Eq, Structural)]
pub enum ProbeCommand {
    /// Block for this many milliseconds.
    PerformDelay { millis: u64 },
    /// Attempt a TCP connection to the destination, timing it.
    AttemptConnect { destination: Destination },
}

/// What the shell reports back once a pending command has been carried out.
#[derive(Clone, Debug, PartialEq, Eq)]
pub enum ProbeEvent {
    /// The interval delay has been performed in full.
    DelayElapsed,
    /// The connection attempt finished with this outcome.
    ConnectFinished { outcome: ProbeOutcome },
}

/// The record a cycle emits for an outcome: a failure is always logged with
/// its detail; a success is logged, with threshold and latency, exactly
/// when the latency strictly exceeds the threshold.
pub open spec fn record_for(outcome: ProbeOutcome, threshold_millis: u128) -> Option<LogRecord> {
    match outcome {
        ProbeOutcome::Success { latency_millis } => {
            if latency_millis > threshold_millis {
                Some(LogRecord::LatencyAboveThreshold { threshold_millis, latency_millis })
            } else {
                None
            }
        },
        ProbeOutcome::Failure { detail } => Some(LogRecord::ConnectionFailed { detail }),
    }
}

/// The phase an event moves the loop to: an elapsed delay clears the way
/// for the connection attempt, and a finished attempt starts the next
/// cycle's delay. No event ends the loop: it has no terminal phase.
pub open spec fn next_phase(event: ProbeEvent) -> ProbePhase {
    match event {
        ProbeEvent::DelayElapsed => ProbePhase::AwaitingConnect,
        ProbeEvent::ConnectFinished { .. } => ProbePhase::AwaitingDelay,
    }
}

/// Classify a finished connection attempt against the threshold.
pub fn classify_outcome(outcome: ProbeOutcome, threshold_millis: u128) -> (record: Option<
    LogRecord,
>)
    ensures
        record == record_for(outcome, threshold_millis),
{
    match outcome {
        ProbeOutcome::Success { latency_millis } => {
            if latency_millis > threshold_millis {
                Some(LogRecord::LatencyAboveThreshold { threshold_millis, latency_millis })
            } else {
                None
            }
        },
        ProbeOutcome::Failure { detail } => Some(LogRecord::ConnectionFailed { detail }),
    }
}

/// The probe loop: its immutable parameters and its place in the current
/// cycle. The shell drives it by asking for the pending command, carrying
/// it out, and reporting the event; any record handed back is emitted at
/// error level.
pub struct ProbeLoop {
    pub params: ProbeParameters,
    pub phase: ProbePhase,
}

impl ProbeLoop {
    /// The command pending in a phase: the interval delay while it has not
    /// elapsed, the connection attempt once it has.
    pub open spec fn spec_pending_command(self) -> ProbeCommand {
        match self.phase {
            ProbePhase::AwaitingDelay => ProbeCommand::PerformDelay {
                millis: self.params.interval_millis,
            },
            ProbePhase::AwaitingConnect => ProbeCommand::AttemptConnect {
                destination: self.params.destination,
            },
        }
    }

    /// The event fits the phase: a delay can only elapse while one is
    /// pending, and an attempt can only finish once one is due.
    pub open spec fn event_fits(self, event: ProbeEvent) -> bool {
        match event {
            ProbeEvent::DelayElapsed => self.phase is AwaitingDelay,
            ProbeEvent::ConnectFinished { .. } => self.phase is AwaitingConnect,
        }
    }

    /// Start the loop: the interval delay comes first, so the first
    /// connection attempt never fires immediately.
    pub fn new(params: ProbeParameters) -> (probe: Self)
        ensures
            probe.params == params,
            probe.phase is AwaitingDelay,
    {
        ProbeLoop { params, phase: ProbePhase::AwaitingDelay }
    }

    /// What the shell must do now.
    pub fn pending_command(&self) -> (command: ProbeCommand)
        ensures
            command == self.spec_pending_command(),
    {
        match self.phase {
            ProbePhase::AwaitingDelay => ProbeCommand::PerformDelay {
                millis: self.params.interval_millis,
            },
            ProbePhase::AwaitingConnect => ProbeCommand::AttemptConnect {
                destination: self.params.destination,
            },
        }
    }

    /// Feed back what the pending command came to. The parameters never
    /// change; the phase advances to the next step of the cycle; and the
    /// returned record is exactly what the outcome calls for — `None` for
    /// an elapsed delay or a quick enough success, a single error record
    /// for a failure or an above-threshold success. Errors never stop the
    /// loop: after any finished attempt the next delay is pending.
    pub fn advance(&mut self, event: ProbeEvent) -> (record: Option<LogRecord>)
        requires
            old(self).event_fits(event),
        ensures
            final(self).params == old(self).params,
            final(self).phase == next_phase(event),
            event is DelayElapsed ==> record is None,
            (event matches ProbeEvent::ConnectFinished { outcome } ==> record == record_for(
                outcome,
                old(self).params.latency_threshold_millis,
            )),
    {
        match event {
            ProbeEvent::DelayElapsed => {
                self.phase = ProbePhase::AwaitingConnect;
                None
            },
            ProbeEvent::ConnectFinished { outcome } => {
                self.phase = ProbePhase::AwaitingDelay;
                classify_outcome(outcome, self.params.latency_threshold_millis)
            },
        }
    }
}

} // verus!
