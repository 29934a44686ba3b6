//! The cancellation signal: a single-slot, non-blocking notification
//! set at most once per interrupt by an external producer and polled
//! by the pipeline between ticks. A signal is a level, not a counted
//! event: a second notification is dropped while one is pending, and
//! once observed, cancellation is terminal for the session.

use vstd::prelude::*;

verus! {

/// Declares crossbeam_channel::Sender, the producer end handed to the
/// interrupt context.
#[verifier::external_type_specification]
#[verifier::external_body]
#[verifier::reject_recursive_types(T)]
pub struct ExSender<T>(crossbeam_channel::Sender<T>);

/// Declares crossbeam_channel::Receiver, the consumer end the signal
/// polls.
#[verifier::external_type_specification]
#[verifier::external_body]
#[verifier::reject_recursive_types(T)]
pub struct ExReceiver<T>(crossbeam_channel::Receiver<T>);

/// Relies on crossbeam_channel::bounded: a channel with room for
/// exactly one pending notification; a send to a full slot fails
/// without blocking, a receive from an empty one likewise.
#[verifier::external_body]
fn bounded_one() -> (pair: (crossbeam_channel::Sender<()>, crossbeam_channel::Receiver<()>)) {
    crossbeam_channel::bounded(1)
}

/// Relies on crossbeam_channel::Receiver::try_recv: never blocks;
/// whether a notification is pending depends on the producer's
/// thread, so nothing is promised of the answer.
#[verifier::external_body]
fn poll_notification(rx: &crossbeam_channel::Receiver<()>) -> (r: bool) {
    rx.try_recv().is_ok()
}

/// The consumer end of the cancellation signal, owned by the pipeline
/// driver for the lifetime of one session.
pub struct CancelSignal {
    rx: crossbeam_channel::Receiver<()>,
    observed: bool,
}

impl CancelSignal {
    /// Whether a cancellation has been observed by a poll.
    pub closed spec fn cancelled(self) -> bool {
        self.observed
    }

    /// Create the signal and the producer handle to hand to the
    /// interrupt context; the producer only ever performs the
    /// non-blocking send.
    pub fn new() -> (pair: (crossbeam_channel::Sender<()>, CancelSignal))
        ensures
            !pair.1.cancelled(),
    {
        let (tx, rx) = bounded_one();
        (tx, CancelSignal { rx, observed: false })
    }

    /// Poll the signal without blocking. Once a cancellation has been
    /// observed it stays observed — there is no un-cancel.
    pub fn poll(&mut self) -> (r: bool)
        ensures
            r == final(self).cancelled(),
            old(self).cancelled() ==> final(self).cancelled(),
    {
        if !self.observed {
            if poll_notification(&self.rx) {
                self.observed = true;
            }
        }
        self.observed
    }
}

} // verus!
