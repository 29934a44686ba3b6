//! The pipeline driver's state machine: a session runs
//! `Starting → Recording → Stopping → Flushed → Done`, ticking in
//! `Recording` while the time budget allows and no cancellation has
//! been observed, then shutting down in order — stop the capture
//! source, flush the encoder tail, close the sink. The waits and the
//! I/O of each step belong to the caller; the decisions stand here.

use vstd::prelude::*;
use crate::encoder::finish_encoder;
use crate::errors::PipelineError;

verus! {

/// The states of one recording session, in the order a successful
/// session passes through them. `Done` is terminal.
#[derive(PartialEq, Eq, Structural, Clone, Copy, Debug)]
pub enum PipelineState {
    /// Configuration is validated and the capture source activated.
    Starting,
    /// Outer ticks drain, decode, reduce, encode and write.
    Recording,
    /// The capture source is stopped.
    Stopping,
    /// The encoder's tail output is written to the sink.
    Flushed,
    /// The sink is flushed and closed; nothing runs after this.
    Done,
}

/// Whether `Recording` may issue another tick: the time budget
/// (`seconds == 0` meaning unbounded) has not elapsed, and no
/// cancellation has been observed.
pub open spec fn tick_allowed(seconds: int, elapsed_ms: int, cancelled: bool) -> bool {
    (seconds == 0 || elapsed_ms / 1000 < seconds) && !cancelled
}

/// The deadline and cancellation check made before every outer tick.
pub fn recording_should_continue(seconds: u64, elapsed_ms: u64, cancelled: bool) -> (r: bool)
    ensures
        r == tick_allowed(seconds as int, elapsed_ms as int, cancelled),
{
    if seconds != 0 && elapsed_ms / 1000 >= seconds {
        return false;
    }
    if cancelled {
        return false;
    }
    true
}

/// What the bounded readiness wait reported, as one tick sees it.
#[derive(PartialEq, Eq, Structural, Clone, Copy, Debug)]
pub enum WaitOutcome {
    /// The event fired: packets may be ready to drain.
    Ready,
    /// The bounded timeout elapsed with no event.
    TimedOut,
    /// The wait itself failed.
    Failed,
}

/// What the tick does with the wait's outcome.
#[derive(PartialEq, Eq, Structural, Clone, Copy, Debug)]
pub enum WaitAction {
    /// Drain every ready packet.
    Drain,
    /// Do nothing this tick and re-evaluate deadline and cancellation
    /// before waiting again.
    Skip,
    /// Abort the session.
    Fatal,
}

/// A timeout on the readiness wait is not an error: it means "no data
/// yet", the tick drains nothing, and the outer loop re-evaluates the
/// deadline and the cancellation signal before waiting again. Only a
/// failure of the wait itself is fatal.
pub fn wait_verdict(outcome: WaitOutcome) -> (a: WaitAction)
    ensures
        (a == WaitAction::Drain) <==> (outcome == WaitOutcome::Ready),
        (a == WaitAction::Skip) <==> (outcome == WaitOutcome::TimedOut),
        (a == WaitAction::Fatal) <==> (outcome == WaitOutcome::Failed),
{
    match outcome {
        WaitOutcome::Ready => WaitAction::Drain,
        WaitOutcome::TimedOut => WaitAction::Skip,
        WaitOutcome::Failed => WaitAction::Fatal,
    }
}

/// Where one step from `s` lands. In `Recording`, `keep_going` is
/// true exactly when the pre-tick check allowed another tick and the
/// tick itself succeeded; every other state ignores it.
pub open spec fn step_spec(s: PipelineState, keep_going: bool) -> PipelineState {
    match s {
        PipelineState::Starting => PipelineState::Recording,
        PipelineState::Recording => if keep_going {
            PipelineState::Recording
        } else {
            PipelineState::Stopping
        },
        PipelineState::Stopping => PipelineState::Flushed,
        PipelineState::Flushed => PipelineState::Done,
        PipelineState::Done => PipelineState::Done,
    }
}

/// Advance the session by one step.
pub fn pipeline_step(s: PipelineState, keep_going: bool) -> (t: PipelineState)
    ensures
        t == step_spec(s, keep_going),
{
    match s {
        PipelineState::Starting => PipelineState::Recording,
        PipelineState::Recording => if keep_going {
            PipelineState::Recording
        } else {
            PipelineState::Stopping
        },
        PipelineState::Stopping => PipelineState::Flushed,
        PipelineState::Flushed => PipelineState::Done,
        PipelineState::Done => PipelineState::Done,
    }
}

/// One session's driver: it owns the state and walks it through the
/// ordered shutdown. Each transition method demands its own source
/// state, and the encoder tail is requested only inside the
/// `Stopping → Flushed` transition: along any run of the driver the
/// tail flush happens exactly once, after the last packet was encoded
/// and before `Done` — on either termination path.
pub struct PipelineDriver {
    /// Where the session stands.
    pub state: PipelineState,
}

impl PipelineDriver {
    /// A session begins in `Starting`.
    pub fn begin() -> (d: PipelineDriver)
        ensures
            d.state == PipelineState::Starting,
    {
        PipelineDriver { state: PipelineState::Starting }
    }

    /// The configuration was validated and the capture source
    /// activated: `Starting → Recording`.
    pub fn activated(&mut self)
        requires
            old(self).state == PipelineState::Starting,
        ensures
            final(self).state == PipelineState::Recording,
    {
        self.state = PipelineState::Recording;
    }

    /// One outer tick ended: the session stays in `Recording` exactly
    /// when the pre-tick check allowed another tick and the tick
    /// succeeded, and moves to `Stopping` otherwise.
    pub fn tick_ended(&mut self, keep_going: bool)
        requires
            old(self).state == PipelineState::Recording,
        ensures
            final(self).state == step_spec(PipelineState::Recording, keep_going),
    {
        self.state = if keep_going {
            PipelineState::Recording
        } else {
            PipelineState::Stopping
        };
    }

    /// The capture source was stopped; request the encoder's tail:
    /// `Stopping → Flushed`. No other function of the session asks
    /// the encoder to finish, so the tail is requested exactly once,
    /// whichever way `Recording` ended.
    pub fn flush_tail(&mut self, enc: &mut shine_rs::Mp3Encoder) -> (r: Result<
        Vec<u8>,
        PipelineError,
    >)
        requires
            old(self).state == PipelineState::Stopping,
        ensures
            final(self).state == PipelineState::Flushed,
            r is Err ==> r matches Err(PipelineError::Encoder(_)),
    {
        self.state = PipelineState::Flushed;
        finish_encoder(enc)
    }

    /// The tail was written and the sink flushed and closed:
    /// `Flushed → Done`, terminal.
    pub fn complete(&mut self)
        requires
            old(self).state == PipelineState::Flushed,
        ensures
            final(self).state == PipelineState::Done,
    {
        self.state = PipelineState::Done;
    }
}

/// Deadline law: with a positive time budget, `Recording` issues no
/// new tick once the elapsed time reaches it, and keeps ticking while
/// it has not (absent cancellation); with a zero budget, recording
/// goes on exactly until a cancellation is observed.
pub proof fn lemma_deadline(seconds: u64, elapsed_ms: u64, cancelled: bool)
    ensures
        seconds > 0 && elapsed_ms >= seconds * 1000 ==> !tick_allowed(
            seconds as int,
            elapsed_ms as int,
            cancelled,
        ),
        seconds > 0 && elapsed_ms < seconds * 1000 && !cancelled ==> tick_allowed(
            seconds as int,
            elapsed_ms as int,
            cancelled,
        ),
        seconds == 0 ==> (tick_allowed(seconds as int, elapsed_ms as int, cancelled) <==> (
        !cancelled)),
{
    let s = seconds as int;
    let e = elapsed_ms as int;
    assert(s > 0 && e >= s * 1000 ==> e / 1000 >= s) by (nonlinear_arith);
    assert(s > 0 && e < s * 1000 ==> e / 1000 < s) by (nonlinear_arith);
}

/// Cancellation law: an observed cancellation forbids every further
/// tick, and from any state the session is `Done` within four steps,
/// stopping capture and flushing the encoder tail on the way — once
/// `Recording` ends, the session passes `Stopping` and `Flushed`
/// before `Done`, never around them.
pub proof fn lemma_cancellation(s: PipelineState, seconds: u64, elapsed_ms: u64)
    ensures
        !tick_allowed(seconds as int, elapsed_ms as int, true),
        step_spec(step_spec(step_spec(step_spec(s, false), false), false), false)
            == PipelineState::Done,
        step_spec(PipelineState::Recording, false) == PipelineState::Stopping,
        step_spec(PipelineState::Stopping, false) == PipelineState::Flushed,
        step_spec(PipelineState::Flushed, false) == PipelineState::Done,
{
}

} // verus!
