//! The show sequence: render, latch low, block transfer, drain, latch high.
//!
//! The decisions live here as a transition function; the caller owns the port,
//! latch pin and transfer channel, performs each action, and reports what happened.
use vstd::prelude::*;

verus! {

/// Where a show operation stands.
#[derive(PartialEq, Eq, Structural, Clone, Copy, Debug)]
pub enum TransferPhase {
    /// No transfer in flight; the controller holds port, channel and buffer.
    Idle,
    /// The buffer is being filled from the logical state.
    Rendering,
    /// Latch asserted, the block transfer of the buffer to the port is running.
    Transmitting,
    /// The channel has finished; the port is still clocking out its last bytes.
    Draining,
}

/// What the caller observed.
#[derive(PartialEq, Eq, Structural, Clone, Copy, Debug)]
pub enum TransferEvent {
    /// A show was requested.
    Show,
    /// The render pass into the buffer is complete.
    Rendered,
    /// The transfer channel reported completion.
    ChannelComplete,
    /// The port confirmed that every queued byte has left the wire.
    Flushed,
    /// The port failed to flush its last bytes.
    FlushFailed,
}

/// What the caller is to do next.
#[derive(PartialEq, Eq, Structural, Clone, Copy, Debug)]
pub enum TransferAction {
    /// Run the render pass into the buffer.
    Render,
    /// Drive the latch low, then start a single-buffer transfer from the buffer to the port.
    LatchLowAndSend,
    /// Wait until the port has flushed its queued bytes.
    AwaitFlush,
    /// Drive the latch high and take back channel, buffer and port: the show succeeded.
    LatchHighAndRelease,
    /// Report the transmission as failed to the caller of show.
    Fail,
    /// The event does not belong to this phase: do nothing.
    Ignore,
}

/// The transition table of the show sequence.
pub open spec fn transition(phase: TransferPhase, event: TransferEvent) -> (TransferPhase, TransferAction) {
    match (phase, event) {
        (TransferPhase::Idle, TransferEvent::Show) => (TransferPhase::Rendering, TransferAction::Render),
        (TransferPhase::Rendering, TransferEvent::Rendered) => (
            TransferPhase::Transmitting,
            TransferAction::LatchLowAndSend,
        ),
        (TransferPhase::Transmitting, TransferEvent::ChannelComplete) => (
            TransferPhase::Draining,
            TransferAction::AwaitFlush,
        ),
        (TransferPhase::Draining, TransferEvent::Flushed) => (
            TransferPhase::Idle,
            TransferAction::LatchHighAndRelease,
        ),
        (TransferPhase::Draining, TransferEvent::FlushFailed) => (
            TransferPhase::Idle,
            TransferAction::Fail,
        ),
        _ => (phase, TransferAction::Ignore),
    }
}

/// Whether the latch is held low in a phase.
pub open spec fn latch_low(phase: TransferPhase) -> bool {
    phase == TransferPhase::Transmitting || phase == TransferPhase::Draining
}

impl TransferPhase {
    /// Advance the show sequence by one observed event.
    pub fn step(self, event: TransferEvent) -> (r: (TransferPhase, TransferAction))
        ensures
            r == transition(self, event),
            r.1 == TransferAction::Ignore <==> r.0 == self,
            r.1 == TransferAction::LatchLowAndSend <==> (!latch_low(self) && latch_low(r.0)),
            (r.1 == TransferAction::LatchHighAndRelease || r.1 == TransferAction::Fail) <==> (
            latch_low(self) && !latch_low(r.0)),
    {
        match (self, event) {
            (TransferPhase::Idle, TransferEvent::Show) => (
                TransferPhase::Rendering,
                TransferAction::Render,
            ),
            (TransferPhase::Rendering, TransferEvent::Rendered) => (
                TransferPhase::Transmitting,
                TransferAction::LatchLowAndSend,
            ),
            (TransferPhase::Transmitting, TransferEvent::ChannelComplete) => (
                TransferPhase::Draining,
                TransferAction::AwaitFlush,
            ),
            (TransferPhase::Draining, TransferEvent::Flushed) => (
                TransferPhase::Idle,
                TransferAction::LatchHighAndRelease,
            ),
            (TransferPhase::Draining, TransferEvent::FlushFailed) => (
                TransferPhase::Idle,
                TransferAction::Fail,
            ),
            _ => (self, TransferAction::Ignore),
        }
    }
}

} // verus!
