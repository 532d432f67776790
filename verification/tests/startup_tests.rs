use loopers::bridge::{build_bridge, Bridge, CONTROL_CHANNEL_CAPACITY};
use loopers::config::{
    default_driver, driver_available, log_plan, parse_driver, Driver, LogLevel, Platform,
    StartupConfig,
};
use loopers::startup::{
    error_exit_code, resolve_driver, start, DispatchState, Dispatcher, StartupError,
};
use loopers::wav::encode_wav;

fn click_bytes(seed: u32, len: usize) -> Vec<u8> {
    let samples: Vec<u32> = (0..len as u32).map(|i| i.wrapping_mul(seed)).collect();
    encode_wav(1, 44100, &samples)
}

fn config(driver: &str, no_gui: bool, restore: bool) -> StartupConfig {
    StartupConfig {
        restore,
        no_gui,
        driver: driver.to_string(),
        debug: false,
        log_path: String::new(),
    }
}

#[test]
fn known_driver_names_parse_and_others_do_not() {
    assert_eq!(parse_driver("jack"), Some(Driver::Jack));
    assert_eq!(parse_driver("coreaudio"), Some(Driver::CoreAudio));
    assert_eq!(parse_driver("nonexistent"), None);
    assert_eq!(parse_driver(""), None);
    assert_eq!(parse_driver("Jack"), None);
    assert_eq!(parse_driver("jack "), None);
    assert_eq!(parse_driver("jäck"), None);
}

#[test]
fn availability_and_defaults_follow_the_platform() {
    assert!(driver_available(Driver::Jack, Platform::Other));
    assert!(driver_available(Driver::Jack, Platform::MacOs));
    assert!(driver_available(Driver::CoreAudio, Platform::MacOs));
    assert!(!driver_available(Driver::CoreAudio, Platform::Other));
    assert_eq!(default_driver(Platform::MacOs), Driver::CoreAudio);
    assert_eq!(default_driver(Platform::Other), Driver::Jack);
}

#[test]
fn unknown_driver_aborts_with_nonzero_status_and_no_dispatch() {
    let cfg = config("nonexistent", false, false);
    let r = start::<u64, u64>(&cfg, Platform::Other, &click_bytes(3, 64), &click_bytes(5, 64));
    let e = r.err().expect("unknown driver must abort startup");
    assert_eq!(e, StartupError::UnknownDriver);
    assert_ne!(error_exit_code(&e), 0);
}

#[test]
fn platform_unsupported_driver_aborts_with_nonzero_status() {
    let cfg = config("coreaudio", false, false);
    let r = start::<u64, u64>(&cfg, Platform::Other, &click_bytes(3, 64), &click_bytes(5, 64));
    let e = r.err().expect("unsupported driver must abort startup");
    assert_eq!(e, StartupError::UnsupportedDriver);
    assert_ne!(error_exit_code(&e), 0);
}

#[test]
fn broken_asset_aborts_before_anything_else() {
    let cfg = config("jack", false, false);
    let mut bad = click_bytes(3, 64);
    bad[8] = b'X';
    let r = start::<u64, u64>(&cfg, Platform::Other, &bad, &click_bytes(5, 64));
    assert_eq!(r.err(), Some(StartupError::AssetDecode));
}

#[test]
fn empty_asset_aborts_like_a_decode_failure() {
    let cfg = config("jack", false, false);
    let empty = encode_wav(1, 44100, &Vec::new());
    let r = start::<u64, u64>(&cfg, Platform::Other, &empty, &click_bytes(5, 64));
    assert_eq!(r.err(), Some(StartupError::AssetDecode));
}

#[test]
fn headless_jack_startup_dispatches_with_both_buffers() {
    // driver "jack", headless, no restore: assets decode, the control
    // channel and a disconnected update channel are built, and one launch
    // carries both buffers and restore = false; no control surface exists.
    let normal = click_bytes(3, 64);
    let emphasis = click_bytes(5, 48);
    let cfg = config("jack", true, false);
    let launch = start::<u64, u64>(&cfg, Platform::Other, &normal, &emphasis)
        .expect("the scenario must reach dispatch");
    assert_eq!(launch.driver, Driver::Jack);
    assert!(!launch.restore);
    assert_eq!(launch.beat_normal.samples.len(), 64);
    assert_eq!(launch.beat_emphasis.samples.len(), 48);
    assert_eq!(
        launch.beat_normal.samples,
        (0..64u32).map(|i| i.wrapping_mul(3)).collect::<Vec<u32>>()
    );
    assert!(!launch.bridge.update_sender.is_connected());
    assert!(launch.bridge.update_receiver.is_none());
    assert_eq!(launch.beat_normal.channels, 1);
    assert_eq!(launch.beat_normal.sample_rate, 44100);
    assert_eq!(launch.beat_emphasis.channels, 1);
    assert_eq!(launch.beat_emphasis.sample_rate, 44100);
}

#[test]
fn attached_gui_gets_the_receiving_half() {
    let cfg = config("jack", false, true);
    let launch = start::<u64, u64>(&cfg, Platform::Other, &click_bytes(3, 8), &click_bytes(5, 8))
        .expect("startup must succeed");
    assert!(launch.restore);
    assert!(launch.bridge.update_sender.is_connected());
    assert!(launch.bridge.update_receiver.is_some());
}

#[test]
fn control_channel_carries_commands_in_order_with_capacity_100() {
    let bridge: Bridge<u64, u64> = build_bridge(true);
    for v in 0..CONTROL_CHANNEL_CAPACITY as u64 {
        bridge.command_sender.try_send(v).expect("within capacity");
    }
    // The (C+1)-th non-blocking send does not complete until a receive
    // happens; nothing is silently dropped.
    assert!(matches!(
        bridge.command_sender.try_send(CONTROL_CHANNEL_CAPACITY as u64),
        Err(crossbeam_channel::TrySendError::Full(v)) if v == CONTROL_CHANNEL_CAPACITY as u64
    ));
    assert_eq!(bridge.command_receiver.try_recv(), Ok(0));
    bridge
        .command_sender
        .try_send(CONTROL_CHANNEL_CAPACITY as u64)
        .expect("a receive freed one slot");
    for v in 1..=CONTROL_CHANNEL_CAPACITY as u64 {
        assert_eq!(bridge.command_receiver.try_recv(), Ok(v));
    }
    assert!(bridge.command_receiver.try_recv().is_err());
}

#[test]
fn dispatcher_walks_its_linear_states_once() {
    let mut d = Dispatcher::new();
    assert_eq!(d.state(), DispatchState::Unselected);
    assert_eq!(d.resolve("nonexistent", Platform::Other), Err(StartupError::UnknownDriver));
    assert_eq!(d.state(), DispatchState::Unselected);
    assert_eq!(d.resolve("jack", Platform::Other), Ok(Driver::Jack));
    assert_eq!(d.state(), DispatchState::Resolved(Driver::Jack));
    assert_eq!(d.dispatch(), Driver::Jack);
    assert_eq!(d.state(), DispatchState::Dispatched(Driver::Jack));
}

#[test]
fn exit_codes_name_the_abort() {
    assert_eq!(error_exit_code(&StartupError::UnknownDriver), 1);
    assert_eq!(error_exit_code(&StartupError::UnsupportedDriver), 1);
    assert_eq!(error_exit_code(&StartupError::AssetDecode), 101);
}

#[test]
fn log_plan_follows_debug_flag_and_path() {
    let p = log_plan(false, "");
    assert_eq!(p.level, LogLevel::Info);
    assert!(!p.log_to_file);
    let p = log_plan(true, "/tmp/loopers.log");
    assert_eq!(p.level, LogLevel::Debug);
    assert!(p.log_to_file);
}
