//! Process bootstrap and control-plane/audio-plane bridge for a live looper.
//!
//! The crate decodes the bundled metronome click assets, constructs the
//! bounded control channel and the (connected or disconnected) update channel,
//! resolves the configured audio driver, and hands every resource to exactly
//! one backend integration.

pub mod bridge;
pub mod channel_ext;
pub mod config;
pub mod control_channel;
pub mod gui_channel;
pub mod startup;
pub mod wav;

pub use config::Driver;
pub use config::Platform;
pub use config::StartupConfig;
