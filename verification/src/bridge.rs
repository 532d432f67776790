//! Construction of the channel topology that bridges the non-realtime
//! control surface and the realtime audio backend.
//!
//! Exactly one control channel and one update channel exist per process;
//! both are built here, before any control surface or backend is created,
//! and their halves are handed out once: the control surface takes the
//! command sender and the update receiver, the backend takes the command
//! receiver and the update sender.

use vstd::prelude::*;
use crate::channel_ext::channel_bounded;
use crate::gui_channel::GuiSender;

verus! {

/// Bound on in-flight commands: enough that interactive use never saturates
/// it, small enough that a runaway producer cannot grow memory without
/// limit. A full channel pushes back on the sender instead of dropping.
pub const CONTROL_CHANNEL_CAPACITY: usize = 100;

/// Both channels' four halves, as built at startup and not yet handed out.
/// `C` is the opaque command type, `U` the opaque state-update type.
#[verifier::reject_recursive_types(C)]
#[verifier::reject_recursive_types(U)]
pub struct Bridge<C, U> {
    /// Command sender, for the control surface; sends block or fail when
    /// the channel is full.
    pub command_sender: crossbeam_channel::Sender<C>,
    /// Command receiver, for the backend's non-blocking poll.
    pub command_receiver: crossbeam_channel::Receiver<C>,
    /// Update sender, for the backend; disconnected in headless runs.
    pub update_sender: GuiSender<U>,
    /// Update receiver, for the control surface; absent in headless runs.
    pub update_receiver: Option<crossbeam_channel::Receiver<U>>,
}

/// Build the process's single control channel and single update channel.
/// A headless run gets the disconnected update sender and no receiving
/// half, so there is no queue that nobody drains.
pub fn build_bridge<C, U>(headless: bool) -> (b: Bridge<C, U>)
    ensures
        b.update_sender is Connected <==> !headless,
        b.update_receiver is Some <==> !headless,
{
    let (command_sender, command_receiver) = channel_bounded(CONTROL_CHANNEL_CAPACITY);
    if headless {
        Bridge {
            command_sender,
            command_receiver,
            update_sender: GuiSender::disconnected(),
            update_receiver: None,
        }
    } else {
        let (update_sender, update_receiver) = GuiSender::new();
        Bridge {
            command_sender,
            command_receiver,
            update_sender,
            update_receiver: Some(update_receiver),
        }
    }
}

} // verus!
