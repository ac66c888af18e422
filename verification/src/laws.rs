//! What holds of whole runs of the probe loop, stated and proved once over
//! the same spec functions that the loop's own contracts use.

use vstd::prelude::*;
use crate::probe::{LogRecord, ProbeCommand, ProbeEvent, ProbeLoop, ProbeOutcome, ProbePhase};
use crate::probe::{next_phase, record_for};
use crate::params::ProbeParameters;

verus! {

/// The error-level records a run of cycles emits, one cycle per outcome,
/// in order: each outcome contributes its record, if it calls for one.
pub open spec fn run_records(outcomes: Seq<ProbeOutcome>, threshold_millis: u128) -> Seq<
    LogRecord,
>
    decreases outcomes.len(),
{
    if outcomes.len() == 0 {
        Seq::empty()
    } else {
        let rest = run_records(outcomes.drop_first(), threshold_millis);
        match record_for(outcomes[0], threshold_millis) {
            Some(record) => seq![record] + rest,
            None => rest,
        }
    }
}

/// The interval delay precedes every connection attempt, the first
/// included: a freshly started loop's pending command is the delay, and
/// only an elapsed delay moves the loop to the phase in which the
/// connection attempt is pending.
pub proof fn lemma_delay_precedes_connect(params: ProbeParameters, event: ProbeEvent)
    ensures
        (ProbeLoop { params, phase: ProbePhase::AwaitingDelay }).spec_pending_command()
            == (ProbeCommand::PerformDelay { millis: params.interval_millis }),
        next_phase(event) is AwaitingConnect ==> event is DelayElapsed,
{
}

/// A successful probe is logged exactly when its latency strictly exceeds
/// the threshold — an equal latency is silent — and the record then carries
/// both the threshold and the measured latency.
pub proof fn lemma_success_logged_iff_above(latency_millis: u128, threshold_millis: u128)
    ensures
        record_for(ProbeOutcome::Success { latency_millis }, threshold_millis) is Some
            <==> latency_millis > threshold_millis,
        latency_millis > threshold_millis ==> record_for(
            ProbeOutcome::Success { latency_millis },
            threshold_millis,
        ) == Some(LogRecord::LatencyAboveThreshold { threshold_millis, latency_millis }),
{
}

/// A failed attempt emits exactly one error-level record, carrying the
/// failure detail, and the loop proceeds: the event that reports the
/// failure leaves the next cycle's delay pending, whatever the threshold.
pub proof fn lemma_failure_always_logged(detail: String, threshold_millis: u128)
    ensures
        record_for(ProbeOutcome::Failure { detail }, threshold_millis) == Some(
            LogRecord::ConnectionFailed { detail },
        ),
        next_phase(
            ProbeEvent::ConnectFinished { outcome: ProbeOutcome::Failure { detail } },
        ) is AwaitingDelay,
{
}

/// A run of consecutive successful probes, none above the threshold, emits
/// no error-level records at all.
pub proof fn lemma_quiet_run(outcomes: Seq<ProbeOutcome>, threshold_millis: u128)
    requires
        forall|i: int|
            0 <= i < outcomes.len() ==> ((#[trigger] outcomes[i]) matches ProbeOutcome::Success {
                latency_millis,
            } && latency_millis <= threshold_millis),
    ensures
        run_records(outcomes, threshold_millis) == Seq::<LogRecord>::empty(),
    decreases outcomes.len(),
{
    if outcomes.len() > 0 {
        assert(outcomes[0] matches ProbeOutcome::Success { latency_millis } && latency_millis
            <= threshold_millis);
        lemma_quiet_run(outcomes.drop_first(), threshold_millis);
    }
}

/// Against a destination that refuses every connection the loop never goes
/// quiet and never stops: every cycle of the run emits a connection-failure
/// record, one per outcome, in order.
pub proof fn lemma_all_failures_logged(outcomes: Seq<ProbeOutcome>, threshold_millis: u128)
    requires
        forall|i: int| 0 <= i < outcomes.len() ==> (#[trigger] outcomes[i]) is Failure,
    ensures
        run_records(outcomes, threshold_millis).len() == outcomes.len(),
        forall|i: int|
            0 <= i < outcomes.len() ==> (#[trigger] run_records(outcomes, threshold_millis)[i])
                is ConnectionFailed,
    decreases outcomes.len(),
{
    if outcomes.len() > 0 {
        assert(outcomes[0] is Failure);
        lemma_all_failures_logged(outcomes.drop_first(), threshold_millis);
    }
}

/// Thresholds at the ends of their range: a zero threshold logs every
/// successful probe of at least one millisecond, and the largest
/// representable threshold never logs a success.
pub proof fn lemma_threshold_boundaries(latency_millis: u128)
    ensures
        latency_millis >= 1 ==> record_for(ProbeOutcome::Success { latency_millis }, 0) is Some,
        record_for(ProbeOutcome::Success { latency_millis }, u128::MAX) is None,
{
}

} // verus!
