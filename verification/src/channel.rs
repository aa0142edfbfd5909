//! The channel boundary between the background loops and the consumer.
//! Sends never block; the one outcome that carries meaning for a loop
//! is that the receiving side is gone, which terminates the loop.

use vstd::prelude::*;

verus! {

/// Declares crossbeam's channel sender so that verified code can hold
/// one and hand it to the send wrapper.
#[verifier::external_type_specification]
#[verifier::external_body]
#[verifier::reject_recursive_types(T)]
pub struct ExSender<T>(crossbeam::channel::Sender<T>);

/// What a non-blocking send came to.
#[derive(Clone, Copy, Debug, PartialEq, Eq, Structural)]
pub enum SendOutcome {
    /// The message is in the channel.
    Delivered,
    /// The channel was at capacity; an unbounded channel never
    /// answers this.
    ChannelFull,
    /// The receiving endpoint has been dropped.
    ReceiverGone,
}

/// Relies on crossbeam's `Sender::try_send`: it never blocks, and it
/// answers `Ok`, `Err(Full)` or `Err(Disconnected)`. Which of the
/// three comes back depends on the receiver's thread, so nothing is
/// promised of the outcome.
#[verifier::external_body]
pub(crate) fn try_send<T>(sender: &crossbeam::channel::Sender<T>, message: T) -> (r: SendOutcome) {
    match sender.try_send(message) {
        Ok(()) => SendOutcome::Delivered,
        Err(crossbeam::channel::TrySendError::Full(_)) => SendOutcome::ChannelFull,
        Err(crossbeam::channel::TrySendError::Disconnected(_)) => SendOutcome::ReceiverGone,
    }
}

/// Whether a send outcome terminates the sending loop: only a gone
/// receiver does; a delivered or refused message lets the loop go on.
pub fn should_stop(outcome: &SendOutcome) -> (r: bool)
    ensures
        r <==> outcome is ReceiverGone,
{
    match outcome {
        SendOutcome::ReceiverGone => true,
        _ => false,
    }
}

} // verus!
