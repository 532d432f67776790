//! The update channel from the audio backend to the control surface.
//!
//! `GuiSender` is selected once at startup: *connected* wraps a real sender
//! whose receiving half the control surface owns; *disconnected* is a no-op
//! sink for headless runs, so that updates with no consumer cost nothing and
//! accumulate nowhere. The variant never changes afterwards.

use vstd::prelude::*;
use crate::channel_ext::{channel_unbounded, clone_sender, try_push, PushOutcome};

verus! {

/// What became of one state update handed to the sender.
#[derive(Clone, Copy, PartialEq, Eq, Structural, Debug)]
pub enum UpdateOutcome {
    /// A connected transport took the value.
    Delivered,
    /// The sender is disconnected: the value was discarded by design.
    Discarded,
    /// The connected transport was full; the update was dropped without
    /// blocking, as the realtime side must never wait here.
    Full,
    /// The receiving half is gone.
    Closed,
}

/// The sending half of the update channel.
#[verifier::reject_recursive_types(T)]
pub enum GuiSender<T> {
    /// Wraps a real sender; the control surface drains the other half.
    Connected(crossbeam_channel::Sender<T>),
    /// A sink for headless runs: every send is a cheap no-op.
    Disconnected,
}

impl<T> GuiSender<T> {
    /// A connected sender, paired with the receiving half for the control
    /// surface.
    pub fn new() -> (r: (GuiSender<T>, crossbeam_channel::Receiver<T>))
        ensures
            r.0 is Connected,
    {
        let (s, r) = channel_unbounded();
        (GuiSender::Connected(s), r)
    }

    /// The no-op sink used when no control surface exists.
    pub fn disconnected() -> (r: GuiSender<T>)
        ensures
            r is Disconnected,
    {
        GuiSender::Disconnected
    }

    /// Whether a control surface is listening on the other half.
    pub fn is_connected(&self) -> (r: bool)
        ensures
            r == (self is Connected),
    {
        match self {
            GuiSender::Connected(_) => true,
            GuiSender::Disconnected => false,
        }
    }

    /// Send one state update without ever blocking: a disconnected sender
    /// discards it outright, a connected one hands it to the transport and
    /// reports what the transport did.
    pub fn send_update(&self, v: T) -> (r: UpdateOutcome)
        ensures
            self is Disconnected <==> r == UpdateOutcome::Discarded,
    {
        match self {
            GuiSender::Disconnected => UpdateOutcome::Discarded,
            GuiSender::Connected(s) => match try_push(s, v) {
                PushOutcome::Delivered => UpdateOutcome::Delivered,
                PushOutcome::Full(_) => UpdateOutcome::Full,
                PushOutcome::Closed(_) => UpdateOutcome::Closed,
            },
        }
    }

    /// Another handle onto the same sink: a connected sender's copy feeds
    /// the same channel, a disconnected sender's copy discards as well.
    pub fn duplicate(&self) -> (r: GuiSender<T>)
        ensures
            r is Connected <==> self is Connected,
    {
        match self {
            GuiSender::Connected(s) => GuiSender::Connected(clone_sender(s)),
            GuiSender::Disconnected => GuiSender::Disconnected,
        }
    }
}

} // verus!
