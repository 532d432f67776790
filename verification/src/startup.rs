//! The linear startup sequence: resolve the configured driver, decode the
//! bundled metronome assets, build the channel bridge, and hand everything
//! to exactly one backend integration.
//!
//! Errors keep the sequence side-effect free: an unknown or unsupported
//! driver is rejected before any resource is constructed, and an asset
//! decode failure aborts before any channel is opened.

use vstd::prelude::*;
use crate::bridge::{build_bridge, Bridge};
use crate::config::{
    parse_driver, driver_available, spec_driver_available, spec_driver_of, Driver, Platform,
    StartupConfig,
};
use crate::wav::{decode_wav, spec_is_wav, spec_samples, WavBuffer};

verus! {

/// Why startup aborted instead of dispatching.
#[derive(Clone, Copy, PartialEq, Eq, Structural, Debug)]
pub enum StartupError {
    /// The driver selection key names no known backend.
    UnknownDriver,
    /// The key names a known backend the current platform cannot run.
    UnsupportedDriver,
    /// A bundled metronome asset failed to decode or holds no samples: a
    /// build invariant is broken and the process must not run degraded.
    AssetDecode,
}

/// What driver resolution yields for a selection key on a platform.
pub open spec fn spec_resolve_driver(name: Seq<char>, p: Platform) -> Result<
    Driver,
    StartupError,
> {
    match spec_driver_of(name) {
        Option::None => Err(StartupError::UnknownDriver),
        Option::Some(d) => if spec_driver_available(d, p) {
            Ok(d)
        } else {
            Err(StartupError::UnsupportedDriver)
        },
    }
}

/// Resolve a selection key against the known, platform-available backends.
pub fn resolve_driver(name: &str, platform: Platform) -> (r: Result<Driver, StartupError>)
    ensures
        r == spec_resolve_driver(name@, platform),
{
    match parse_driver(name) {
        Option::None => Err(StartupError::UnknownDriver),
        Option::Some(d) => {
            if driver_available(d, platform) {
                Ok(d)
            } else {
                Err(StartupError::UnsupportedDriver)
            }
        },
    }
}

/// The dispatcher's linear state: it starts unselected, resolves the key at
/// most once, and dispatches at most once; `Dispatched` is terminal.
#[derive(Clone, Copy, PartialEq, Eq, Structural, Debug)]
pub enum DispatchState {
    /// Nothing resolved yet; only the selection key exists.
    Unselected,
    /// The key matched a known, platform-available backend.
    Resolved(Driver),
    /// The backend's entry point has been invoked; control does not come
    /// back here in normal operation.
    Dispatched(Driver),
}

/// The backend dispatcher: tracks that exactly one backend is resolved and
/// then entered, and that nothing is entered after a rejection.
pub struct Dispatcher {
    state: DispatchState,
}

impl Dispatcher {
    pub closed spec fn spec_state(&self) -> DispatchState {
        self.state
    }

    pub fn new() -> (d: Dispatcher)
        ensures
            d.spec_state() == DispatchState::Unselected,
    {
        Dispatcher { state: DispatchState::Unselected }
    }

    pub fn state(&self) -> (s: DispatchState)
        ensures
            s == self.spec_state(),
    {
        self.state
    }

    /// Match the selection key; a rejection leaves the dispatcher
    /// unselected, so no later step can enter a backend.
    pub fn resolve(&mut self, name: &str, platform: Platform) -> (r: Result<Driver, StartupError>)
        requires
            old(self).spec_state() == DispatchState::Unselected,
        ensures
            r == spec_resolve_driver(name@, platform),
            r matches Ok(d) ==> final(self).spec_state() == DispatchState::Resolved(d),
            r is Err ==> final(self).spec_state() == DispatchState::Unselected,
    {
        match resolve_driver(name, platform) {
            Ok(d) => {
                self.state = DispatchState::Resolved(d);
                Ok(d)
            },
            Err(e) => Err(e),
        }
    }

    /// Enter the terminal state, once, and say which backend to call.
    pub fn dispatch(&mut self) -> (d: Driver)
        requires
            old(self).spec_state() matches DispatchState::Resolved(_),
        ensures
            old(self).spec_state() == DispatchState::Resolved(d),
            final(self).spec_state() == DispatchState::Dispatched(d),
    {
        let d = match self.state {
            DispatchState::Resolved(d) => d,
            _ => unreached(),
        };
        self.state = DispatchState::Dispatched(d);
        d
    }
}

/// Both bundled assets decode and are non-empty: the build invariant the
/// metronome buffers must satisfy before anything else is constructed.
pub open spec fn spec_assets_ok(normal: Seq<u8>, emphasis: Seq<u8>) -> bool {
    &&& spec_is_wav(normal)
    &&& spec_samples(normal).len() > 0
    &&& spec_is_wav(emphasis)
    &&& spec_samples(emphasis).len() > 0
}

/// Whether startup dispatches, and to which backend, or why it aborts:
/// configuration errors are reported before asset decoding, and a broken
/// asset aborts before any channel exists.
pub open spec fn spec_start_outcome(
    name: Seq<char>,
    p: Platform,
    normal: Seq<u8>,
    emphasis: Seq<u8>,
) -> Result<Driver, StartupError> {
    match spec_resolve_driver(name, p) {
        Err(e) => Err(e),
        Ok(d) => if spec_assets_ok(normal, emphasis) {
            Ok(d)
        } else {
            Err(StartupError::AssetDecode)
        },
    }
}

/// Everything the selected backend integration takes ownership of: the
/// resolved driver, the restore flag, both metronome buffers, and the
/// channel halves of its side of the bridge.
#[verifier::reject_recursive_types(C)]
#[verifier::reject_recursive_types(U)]
pub struct Launch<C, U> {
    pub driver: Driver,
    pub restore: bool,
    /// The metronome's regular click.
    pub beat_normal: WavBuffer,
    /// The metronome's emphasised click.
    pub beat_emphasis: WavBuffer,
    /// Both channels' four halves, not yet handed out.
    pub bridge: Bridge<C, U>,
}

/// Run the startup sequence up to the point of dispatch.
///
/// On success the returned `Launch` holds every resource the backend entry
/// point consumes; moving it there is the single ownership transfer, after
/// which this layer retains nothing. On failure nothing was constructed.
pub fn start<C, U>(config: &StartupConfig, platform: Platform, normal: &[u8], emphasis: &[u8]) -> (r:
    Result<Launch<C, U>, StartupError>)
    ensures
        (r is Ok) == (spec_start_outcome(config.driver@, platform, normal@, emphasis@) is Ok),
        r matches Err(e) ==> Err::<Driver, StartupError>(e) == spec_start_outcome(
            config.driver@,
            platform,
            normal@,
            emphasis@,
        ),
        r matches Ok(l) ==> {
            &&& Ok::<Driver, StartupError>(l.driver) == spec_start_outcome(
                config.driver@,
                platform,
                normal@,
                emphasis@,
            )
            &&& l.restore == config.restore
            &&& l.beat_normal.samples@ == spec_samples(normal@)
            &&& l.beat_normal.samples@.len() > 0
            &&& l.beat_normal.channels == crate::wav::spec_channels(normal@)
            &&& l.beat_normal.sample_rate == crate::wav::spec_sample_rate(normal@)
            &&& l.beat_emphasis.samples@ == spec_samples(emphasis@)
            &&& l.beat_emphasis.samples@.len() > 0
            &&& l.beat_emphasis.channels == crate::wav::spec_channels(emphasis@)
            &&& l.beat_emphasis.sample_rate == crate::wav::spec_sample_rate(emphasis@)
            &&& (l.bridge.update_sender is Connected <==> !config.no_gui)
            &&& (l.bridge.update_receiver is Some <==> !config.no_gui)
        },
{
    let driver = match resolve_driver(config.driver.as_str(), platform) {
        Ok(d) => d,
        Err(e) => {
            return Err(e);
        },
    };
    let beat_normal = match decode_wav(normal) {
        Option::Some(w) => w,
        Option::None => {
            return Err(StartupError::AssetDecode);
        },
    };
    let beat_emphasis = match decode_wav(emphasis) {
        Option::Some(w) => w,
        Option::None => {
            return Err(StartupError::AssetDecode);
        },
    };
    if beat_normal.samples.len() == 0 || beat_emphasis.samples.len() == 0 {
        return Err(StartupError::AssetDecode);
    }
    let bridge = build_bridge(config.no_gui);
    Ok(Launch { driver, restore: config.restore, beat_normal, beat_emphasis, bridge })
}

/// The process exit status for a startup abort: never the success status.
pub fn error_exit_code(e: &StartupError) -> (c: i32)
    ensures
        c != 0,
        (*e == StartupError::UnknownDriver || *e == StartupError::UnsupportedDriver) ==> c == 1,
        *e == StartupError::AssetDecode ==> c == 101,
{
    match e {
        StartupError::UnknownDriver => 1,
        StartupError::UnsupportedDriver => 1,
        StartupError::AssetDecode => 101,
    }
}

} // verus!
