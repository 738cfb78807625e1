//! Keeping the browser connection alive, and finding out whether it is.
//!
//! The pump drains the stream of messages that the browser sends for as
//! long as the connection stands. The probe opens and closes a blank page
//! to see whether the browser still answers.

use vstd::prelude::*;

verus! {

/// The pause the pump makes after a fault before it reads on.
pub const PUMP_PAUSE_MS: u64 = 100;

/// How long the probe waits for the browser handle, and again for the
/// blank page to open and to close.
pub const PROBE_WAIT_MS: u64 = 5000;

/// What the pump read from the stream.
#[derive(Debug, Clone, Copy, PartialEq, Eq, Structural)]
pub enum Signal {
    /// A message; the pump has nothing to do with it.
    Message,
    /// An error that the connection survives.
    Fault,
    /// The end of the stream: the connection is gone for good.
    Closed,
}

/// What the pump does after a read.
#[derive(Debug, Clone, Copy, PartialEq, Eq, Structural)]
pub enum PumpAction {
    /// Read the next item.
    Poll,
    /// Wait, then read the next item.
    PauseThenPoll { millis: u64 },
    /// Stop reading.
    Stop,
}

/// The pump of one connection. It remembers whether the connection
/// stands.
#[derive(Debug, Clone, Copy, PartialEq, Eq, Structural)]
pub struct Pump {
    pub connected: bool,
}

impl Pump {
    /// The pump after a read, and what it does next: it reads on after a
    /// message, pauses and reads on after a fault, and stops when the
    /// stream has ended. A connection that is gone stays gone.
    pub open spec fn advance(self, signal: Signal) -> (Pump, PumpAction) {
        if !self.connected {
            (self, PumpAction::Stop)
        } else {
            match signal {
                Signal::Message => (self, PumpAction::Poll),
                Signal::Fault => (self, PumpAction::PauseThenPoll { millis: PUMP_PAUSE_MS }),
                Signal::Closed => (Pump { connected: false }, PumpAction::Stop),
            }
        }
    }

    /// The pump after a run of reads.
    pub open spec fn after(self, signals: Seq<Signal>) -> Pump
        decreases signals.len(),
    {
        if signals.len() == 0 {
            self
        } else {
            self.advance(signals[0]).0.after(signals.drop_first())
        }
    }

    /// The pump of a connection that has just been made.
    pub fn new() -> (pump: Pump)
        ensures
            pump.connected,
    {
        Pump { connected: true }
    }

    /// Whether the connection stands.
    pub fn is_connected(&self) -> (connected: bool)
        ensures
            connected == self.connected,
    {
        self.connected
    }

    /// Takes what was read and says what to do next.
    pub fn step(self, signal: Signal) -> (next: (Pump, PumpAction))
        ensures
            next == self.advance(signal),
    {
        if !self.connected {
            (self, PumpAction::Stop)
        } else {
            match signal {
                Signal::Message => (self, PumpAction::Poll),
                Signal::Fault => (self, PumpAction::PauseThenPoll { millis: PUMP_PAUSE_MS }),
                Signal::Closed => (Pump { connected: false }, PumpAction::Stop),
            }
        }
    }
}

/// The pump stops for one reason only, the end of the stream; no fault
/// makes it stop.
pub proof fn lemma_pump_stops_only_when_closed(pump: Pump, signal: Signal)
    requires
        pump.connected,
    ensures
        pump.advance(signal).1 == PumpAction::Stop <==> signal == Signal::Closed,
        pump.advance(signal).0.connected <==> signal != Signal::Closed,
{
}

/// A connection that has ended is never reported as standing again.
pub proof fn lemma_pump_stays_closed(pump: Pump, signals: Seq<Signal>)
    requires
        !pump.connected,
    ensures
        !pump.after(signals).connected,
    decreases signals.len(),
{
    if signals.len() > 0 {
        lemma_pump_stays_closed(pump.advance(signals[0]).0, signals.drop_first());
    }
}

/// How a request of the probe ended.
#[derive(Debug, Clone, Copy, PartialEq, Eq, Structural)]
pub enum Outcome {
    Completed,
    Failed,
    TimedOut,
}

/// Where a probe stands.
#[derive(Debug, Clone, Copy, PartialEq, Eq, Structural)]
pub enum ProbePhase {
    Idle,
    AcquiringHandle,
    OpeningBlank,
    Closing,
    Healthy,
    Unhealthy,
}

/// What the caller of a probe is to do next. Every request is abandoned
/// after `wait_ms` milliseconds and then counts as timed out.
#[derive(Debug, Clone, Copy, PartialEq, Eq, Structural)]
pub enum ProbeStep {
    /// Wait for exclusive use of the browser.
    AcquireHandle { wait_ms: u64 },
    /// Open a blank page.
    OpenBlankPage { wait_ms: u64 },
    /// Close the blank page again.
    ClosePage { wait_ms: u64 },
    /// The probe is over; the browser is available or it is not.
    Report { available: bool },
}

impl ProbePhase {
    /// Whether the probe holds the browser handle in this phase.
    pub open spec fn holds_handle(self) -> bool {
        self == ProbePhase::OpeningBlank || self == ProbePhase::Closing
    }

    /// Whether the probe is over.
    pub open spec fn terminal(self) -> bool {
        self == ProbePhase::Healthy || self == ProbePhase::Unhealthy
    }

    /// The phase reached and the request to make. A probe does not begin
    /// on a connection that is gone. Any failure and any timeout mean that
    /// the browser is not available; the blank page is closed before the
    /// browser is reported as available.
    pub open spec fn advance(self, connected: bool, outcome: Outcome) -> (ProbePhase, ProbeStep) {
        match self {
            ProbePhase::Idle => if connected {
                (ProbePhase::AcquiringHandle, ProbeStep::AcquireHandle { wait_ms: PROBE_WAIT_MS })
            } else {
                (ProbePhase::Unhealthy, ProbeStep::Report { available: false })
            },
            ProbePhase::AcquiringHandle => if outcome == Outcome::Completed {
                (ProbePhase::OpeningBlank, ProbeStep::OpenBlankPage { wait_ms: PROBE_WAIT_MS })
            } else {
                (ProbePhase::Unhealthy, ProbeStep::Report { available: false })
            },
            ProbePhase::OpeningBlank => if outcome == Outcome::Completed {
                (ProbePhase::Closing, ProbeStep::ClosePage { wait_ms: PROBE_WAIT_MS })
            } else {
                (ProbePhase::Unhealthy, ProbeStep::Report { available: false })
            },
            ProbePhase::Closing => (ProbePhase::Healthy, ProbeStep::Report { available: true }),
            ProbePhase::Healthy => (ProbePhase::Healthy, ProbeStep::Report { available: true }),
            ProbePhase::Unhealthy => (
                ProbePhase::Unhealthy,
                ProbeStep::Report { available: false },
            ),
        }
    }

    /// Whether the caller must be holding the browser handle.
    pub fn handle_held(&self) -> (held: bool)
        ensures
            held == self.holds_handle(),
    {
        match self {
            ProbePhase::OpeningBlank => true,
            ProbePhase::Closing => true,
            _ => false,
        }
    }

    /// Takes the outcome of the request in flight and names the next one.
    /// In `Idle` nothing is in flight and the outcome is not looked at.
    pub fn step(self, connected: bool, outcome: Outcome) -> (next: (ProbePhase, ProbeStep))
        ensures
            next == self.advance(connected, outcome),
    {
        let unavailable = (ProbePhase::Unhealthy, ProbeStep::Report { available: false });
        match self {
            ProbePhase::Idle => {
                if connected {
                    (
                        ProbePhase::AcquiringHandle,
                        ProbeStep::AcquireHandle { wait_ms: PROBE_WAIT_MS },
                    )
                } else {
                    unavailable
                }
            },
            ProbePhase::AcquiringHandle => match outcome {
                Outcome::Completed => (
                    ProbePhase::OpeningBlank,
                    ProbeStep::OpenBlankPage { wait_ms: PROBE_WAIT_MS },
                ),
                _ => unavailable,
            },
            ProbePhase::OpeningBlank => match outcome {
                Outcome::Completed => (
                    ProbePhase::Closing,
                    ProbeStep::ClosePage { wait_ms: PROBE_WAIT_MS },
                ),
                _ => unavailable,
            },
            ProbePhase::Closing => (ProbePhase::Healthy, ProbeStep::Report { available: true }),
            ProbePhase::Healthy => (ProbePhase::Healthy, ProbeStep::Report { available: true }),
            ProbePhase::Unhealthy => unavailable,
        }
    }
}

/// The address of the page that a probe opens.
pub fn blank_page() -> (url: &'static str)
    ensures
        url@ == "about:blank"@,
{
    "about:blank"
}

/// A probe reports exactly when it is over, holds nothing then, and
/// reports the browser as available only after the blank page was opened
/// and closed again.
pub proof fn lemma_probe_reports_at_end(phase: ProbePhase, connected: bool, outcome: Outcome)
    ensures
        phase.advance(connected, outcome).1 is Report <==> phase.advance(
            connected,
            outcome,
        ).0.terminal(),
        phase.advance(connected, outcome).0.terminal() ==> !phase.advance(
            connected,
            outcome,
        ).0.holds_handle(),
        !phase.terminal() && phase.advance(connected, outcome).1 == (ProbeStep::Report {
            available: true,
        }) ==> phase == ProbePhase::Closing,
        !phase.terminal() && outcome != Outcome::Completed && phase != ProbePhase::Idle && phase
            != ProbePhase::Closing ==> phase.advance(connected, outcome).1 == (ProbeStep::Report {
            available: false,
        }),
{
}

} // verus!
