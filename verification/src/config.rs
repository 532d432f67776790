//! Startup configuration: the driver selection key, platform availability,
//! and the logging decisions taken once at process start.

use vstd::prelude::*;
use vstd::string::StrSliceExecFns;

verus! {

/// Audio backend integrations this bootstrap can dispatch to.
#[derive(Clone, Copy, PartialEq, Eq, Structural, Debug)]
pub enum Driver {
    Jack,
    CoreAudio,
}

/// Platforms distinguished by which backends they can run.
#[derive(Clone, Copy, PartialEq, Eq, Structural, Debug)]
pub enum Platform {
    MacOs,
    Other,
}

/// Configuration parsed once at process start; never mutated afterwards.
pub struct StartupConfig {
    /// Restore the last saved session after the backend starts.
    pub restore: bool,
    /// Run without a control surface; state updates are discarded.
    pub no_gui: bool,
    /// Name of the requested audio backend.
    pub driver: String,
    /// Raise log verbosity from informational to debug.
    pub debug: bool,
    /// Path of an extra file log sink; empty means log to stdout only.
    pub log_path: String,
}

/// The driver a selection key names, if any: the key set is closed.
pub open spec fn spec_driver_of(name: Seq<char>) -> Option<Driver> {
    if name == "jack"@ {
        Some(Driver::Jack)
    } else if name == "coreaudio"@ {
        Some(Driver::CoreAudio)
    } else {
        None
    }
}

/// Whether a backend can be constructed at all on a platform.
pub open spec fn spec_driver_available(d: Driver, p: Platform) -> bool {
    match d {
        Driver::Jack => true,
        Driver::CoreAudio => p == Platform::MacOs,
    }
}

/// The driver used when the configuration names none.
pub open spec fn spec_default_driver(p: Platform) -> Driver {
    match p {
        Platform::MacOs => Driver::CoreAudio,
        Platform::Other => Driver::Jack,
    }
}

/// Character-for-character equality of two string slices.
fn str_eq(a: &str, b: &str) -> (r: bool)
    ensures
        r == (a@ == b@),
{
    let a_len = a.unicode_len();
    let b_len = b.unicode_len();
    if a_len != b_len {
        assert(a@.len() != b@.len());
        return false;
    }
    let mut i: usize = 0;
    while i < a_len
        invariant
            i <= a_len,
            a_len == a@.len(),
            a_len == b@.len(),
            forall|j: int| 0 <= j < i ==> a@[j] == b@[j],
        decreases a_len - i,
    {
        if a.get_char(i) != b.get_char(i) {
            assert(a@[i as int] != b@[i as int]);
            return false;
        }
        i = i + 1;
    }
    assert(a@ =~= b@);
    true
}

/// Match a selection key against the closed set of known driver names.
pub fn parse_driver(name: &str) -> (r: Option<Driver>)
    ensures
        r == spec_driver_of(name@),
{
    if str_eq(name, "jack") {
        Some(Driver::Jack)
    } else if str_eq(name, "coreaudio") {
        Some(Driver::CoreAudio)
    } else {
        None
    }
}

/// Whether the platform can run the backend.
pub fn driver_available(d: Driver, p: Platform) -> (r: bool)
    ensures
        r == spec_driver_available(d, p),
{
    match d {
        Driver::Jack => true,
        Driver::CoreAudio => match p {
            Platform::MacOs => true,
            Platform::Other => false,
        },
    }
}

/// The platform's default driver; it is always available there.
pub fn default_driver(p: Platform) -> (d: Driver)
    ensures
        d == spec_default_driver(p),
        spec_driver_available(d, p),
{
    match p {
        Platform::MacOs => Driver::CoreAudio,
        Platform::Other => Driver::Jack,
    }
}

/// Log verbosity levels this layer distinguishes.
#[derive(Clone, Copy, PartialEq, Eq, Structural, Debug)]
pub enum LogLevel {
    Info,
    Debug,
}

/// The logging decisions: verbosity, and whether a file sink is added.
/// Applying the plan (opening sinks, installing the logger) is I/O and is
/// left to the caller; a failure there is reported and non-fatal.
#[derive(Clone, Copy, PartialEq, Eq, Structural, Debug)]
pub struct LogPlan {
    pub level: LogLevel,
    pub log_to_file: bool,
}

/// Decide the logging setup from the configuration: debug raises the level,
/// and a non-empty path adds a file sink.
pub fn log_plan(debug: bool, log_path: &str) -> (p: LogPlan)
    ensures
        p.level == (if debug {
            LogLevel::Debug
        } else {
            LogLevel::Info
        }),
        p.log_to_file == (log_path@.len() != 0),
{
    LogPlan {
        level: if debug {
            LogLevel::Debug
        } else {
            LogLevel::Info
        },
        log_to_file: !log_path.is_empty(),
    }
}

} // verus!
