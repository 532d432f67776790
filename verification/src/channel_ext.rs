//! Trusted declarations for the channel primitives of `crossbeam_channel`,
//! the transport that carries commands and state updates between the
//! control surface and the audio backend.

use vstd::prelude::*;

verus! {

/// Declares `crossbeam_channel::Sender`, the sending half of a channel, so
/// that it can stand in the library's signatures and fields.
#[verifier::external_type_specification]
#[verifier::external_body]
#[verifier::reject_recursive_types(T)]
pub struct ExSender<T>(crossbeam_channel::Sender<T>);

/// Declares `crossbeam_channel::Receiver`, the receiving half of a channel.
#[verifier::external_type_specification]
#[verifier::external_body]
#[verifier::reject_recursive_types(T)]
pub struct ExReceiver<T>(crossbeam_channel::Receiver<T>);

/// What a non-blocking send reports back: the transport either took the
/// value, or hands it back with the reason.
pub enum PushOutcome<T> {
    /// The value was placed on the channel.
    Delivered,
    /// The channel was full; the value comes back unsent.
    Full(T),
    /// No receiver exists any more; the value comes back unsent.
    Closed(T),
}

/// Relies on `crossbeam_channel::bounded`: a channel that holds at most
/// `cap` messages, delivering them in send order to a single drain point.
#[verifier::external_body]
pub(crate) fn channel_bounded<T>(cap: usize) -> (crossbeam_channel::Sender<T>, crossbeam_channel::Receiver<T>) {
    crossbeam_channel::bounded(cap)
}

/// Relies on `crossbeam_channel::unbounded`: a channel without a capacity
/// bound, so a send never waits for the consumer.
#[verifier::external_body]
pub(crate) fn channel_unbounded<T>() -> (crossbeam_channel::Sender<T>, crossbeam_channel::Receiver<T>) {
    crossbeam_channel::unbounded()
}

/// Relies on `crossbeam_channel::Sender::try_send`: it never blocks, and a
/// send that does not go through returns the message unchanged.
#[verifier::external_body]
pub(crate) fn try_push<T>(s: &crossbeam_channel::Sender<T>, v: T) -> (r: PushOutcome<T>)
    ensures
        r is Delivered || (r matches PushOutcome::Full(w) && w == v) || (r
            matches PushOutcome::Closed(w) && w == v),
{
    match s.try_send(v) {
        Ok(()) => PushOutcome::Delivered,
        Err(crossbeam_channel::TrySendError::Full(v)) => PushOutcome::Full(v),
        Err(crossbeam_channel::TrySendError::Disconnected(v)) => PushOutcome::Closed(v),
    }
}

/// Relies on `crossbeam_channel::Sender::clone`: the clone sends into the
/// same channel as the sender it was cloned from.
#[verifier::external_body]
pub(crate) fn clone_sender<T>(s: &crossbeam_channel::Sender<T>) -> crossbeam_channel::Sender<T> {
    s.clone()
}

} // verus!
