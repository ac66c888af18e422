use tcp_probe::params::{Destination, IpAddress, ProbeParameters, TimestampStyle};
use tcp_probe::probe::{
    classify_outcome, LogRecord, ProbeCommand, ProbeEvent, ProbeLoop, ProbeOutcome,
};

fn localhost_params(interval_millis: u64, latency_threshold_millis: u128) -> ProbeParameters {
    ProbeParameters {
        destination: Destination { ip: IpAddress::V4(0x7f000001), port: 8080 },
        interval_millis,
        latency_threshold_millis,
        verbosity: 0,
        quiet: false,
        timestamps: TimestampStyle::Off,
    }
}

#[test]
fn delay_is_commanded_before_the_first_attempt() {
    let params = localhost_params(1000, 50);
    let mut probe = ProbeLoop::new(params);
    assert_eq!(probe.pending_command(), ProbeCommand::PerformDelay { millis: 1000 });
    assert_eq!(probe.advance(ProbeEvent::DelayElapsed), None);
    assert_eq!(
        probe.pending_command(),
        ProbeCommand::AttemptConnect { destination: params.destination }
    );
}

#[test]
fn success_above_threshold_logs_both_values() {
    let record = classify_outcome(ProbeOutcome::Success { latency_millis: 51 }, 50);
    assert_eq!(
        record,
        Some(LogRecord::LatencyAboveThreshold { threshold_millis: 50, latency_millis: 51 })
    );
}

#[test]
fn success_at_threshold_is_silent() {
    assert_eq!(classify_outcome(ProbeOutcome::Success { latency_millis: 50 }, 50), None);
    assert_eq!(classify_outcome(ProbeOutcome::Success { latency_millis: 7 }, 50), None);
}

#[test]
fn failure_logs_exactly_one_record_and_the_loop_proceeds() {
    let mut probe = ProbeLoop::new(localhost_params(1000, 50));
    assert_eq!(probe.advance(ProbeEvent::DelayElapsed), None);
    let outcome = ProbeOutcome::Failure { detail: String::from("connection refused") };
    let record = probe.advance(ProbeEvent::ConnectFinished { outcome });
    assert_eq!(
        record,
        Some(LogRecord::ConnectionFailed { detail: String::from("connection refused") })
    );
    assert_eq!(probe.pending_command(), ProbeCommand::PerformDelay { millis: 1000 });
}

#[test]
fn quiet_run_emits_nothing_and_keeps_the_parameters() {
    let params = localhost_params(250, 50);
    let mut probe = ProbeLoop::new(params);
    let mut records: usize = 0;
    for latency in [1u128, 10, 25, 49, 50] {
        if probe.advance(ProbeEvent::DelayElapsed).is_some() {
            records += 1;
        }
        let outcome = ProbeOutcome::Success { latency_millis: latency };
        if probe.advance(ProbeEvent::ConnectFinished { outcome }).is_some() {
            records += 1;
        }
    }
    assert_eq!(records, 0);
    assert_eq!(probe.params, params);
}

#[test]
fn zero_threshold_logs_any_measurable_latency() {
    assert_eq!(
        classify_outcome(ProbeOutcome::Success { latency_millis: 1 }, 0),
        Some(LogRecord::LatencyAboveThreshold { threshold_millis: 0, latency_millis: 1 })
    );
    assert_eq!(classify_outcome(ProbeOutcome::Success { latency_millis: 0 }, 0), None);
}

#[test]
fn maximum_threshold_never_logs_a_success() {
    assert_eq!(
        classify_outcome(ProbeOutcome::Success { latency_millis: u128::MAX }, u128::MAX),
        None
    );
    assert_eq!(classify_outcome(ProbeOutcome::Success { latency_millis: 12345 }, u128::MAX), None);
}

#[test]
fn refusing_destination_logs_a_failure_every_iteration() {
    let mut probe = ProbeLoop::new(localhost_params(1000, 50));
    for iteration in 0..5 {
        assert_eq!(probe.advance(ProbeEvent::DelayElapsed), None);
        let detail = format!("refused on iteration {}", iteration);
        let outcome = ProbeOutcome::Failure { detail: detail.clone() };
        let record = probe.advance(ProbeEvent::ConnectFinished { outcome });
        assert_eq!(record, Some(LogRecord::ConnectionFailed { detail }));
        assert!(matches!(probe.pending_command(), ProbeCommand::PerformDelay { .. }));
    }
}

#[test]
fn slow_destination_logs_latency_above_threshold_every_iteration() {
    let mut probe = ProbeLoop::new(localhost_params(1000, 50));
    for _ in 0..3 {
        assert_eq!(probe.advance(ProbeEvent::DelayElapsed), None);
        let outcome = ProbeOutcome::Success { latency_millis: 100 };
        let record = probe.advance(ProbeEvent::ConnectFinished { outcome });
        assert_eq!(
            record,
            Some(LogRecord::LatencyAboveThreshold { threshold_millis: 50, latency_millis: 100 })
        );
    }
}
