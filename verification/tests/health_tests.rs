use thumbnail_service::health::{
    blank_page, Outcome, ProbePhase, ProbeStep, Pump, PumpAction, Signal, PROBE_WAIT_MS,
    PUMP_PAUSE_MS,
};
use thumbnail_service::response::HealthResponse;

#[test]
fn pump_reads_on_after_messages_and_faults() {
    let pump = Pump::new();
    assert!(pump.is_connected());
    let (pump, action) = pump.step(Signal::Message);
    assert_eq!(action, PumpAction::Poll);
    let (pump, action) = pump.step(Signal::Fault);
    assert_eq!(action, PumpAction::PauseThenPoll { millis: 100 });
    assert_eq!(PUMP_PAUSE_MS, 100);
    assert!(pump.is_connected());
}

#[test]
fn pump_stops_when_the_stream_ends() {
    let (pump, action) = Pump::new().step(Signal::Closed);
    assert_eq!(action, PumpAction::Stop);
    assert!(!pump.is_connected());
    for signal in [Signal::Message, Signal::Fault, Signal::Closed] {
        let (after, action) = pump.step(signal);
        assert_eq!(action, PumpAction::Stop);
        assert!(!after.is_connected());
    }
}

#[test]
fn probe_opens_and_closes_a_blank_page() {
    assert_eq!(PROBE_WAIT_MS, 5_000);
    assert_eq!(blank_page(), "about:blank");
    let (phase, step) = ProbePhase::Idle.step(true, Outcome::Completed);
    assert_eq!((phase, step), (ProbePhase::AcquiringHandle, ProbeStep::AcquireHandle { wait_ms: 5_000 }));
    assert!(!phase.handle_held());
    let (phase, step) = phase.step(true, Outcome::Completed);
    assert_eq!((phase, step), (ProbePhase::OpeningBlank, ProbeStep::OpenBlankPage { wait_ms: 5_000 }));
    assert!(phase.handle_held());
    let (phase, step) = phase.step(true, Outcome::Completed);
    assert_eq!((phase, step), (ProbePhase::Closing, ProbeStep::ClosePage { wait_ms: 5_000 }));
    assert!(phase.handle_held());
    let (phase, step) = phase.step(true, Outcome::TimedOut);
    assert_eq!((phase, step), (ProbePhase::Healthy, ProbeStep::Report { available: true }));
    assert!(!phase.handle_held());
}

#[test]
fn probe_reports_a_lost_connection_at_once() {
    assert_eq!(
        ProbePhase::Idle.step(false, Outcome::Completed),
        (ProbePhase::Unhealthy, ProbeStep::Report { available: false })
    );
}

#[test]
fn probe_counts_timeouts_and_errors_as_unavailable() {
    for phase in [ProbePhase::AcquiringHandle, ProbePhase::OpeningBlank] {
        for outcome in [Outcome::Failed, Outcome::TimedOut] {
            assert_eq!(
                phase.step(true, outcome),
                (ProbePhase::Unhealthy, ProbeStep::Report { available: false })
            );
        }
    }
}

#[test]
fn finished_probe_repeats_its_report() {
    assert_eq!(
        ProbePhase::Healthy.step(true, Outcome::Failed),
        (ProbePhase::Healthy, ProbeStep::Report { available: true })
    );
    assert_eq!(
        ProbePhase::Unhealthy.step(true, Outcome::Completed),
        (ProbePhase::Unhealthy, ProbeStep::Report { available: false })
    );
}

#[test]
fn health_response_reports_the_probe() {
    assert_eq!(
        HealthResponse::report(true),
        HealthResponse { status: "ok".to_string(), chrome_available: true }
    );
    assert_eq!(
        HealthResponse::report(false),
        HealthResponse { status: "ok".to_string(), chrome_available: false }
    );
}
