use linmic::config::State;
use linmic::control::{
    constant_equal, local_command, sanitize_name, session_message, setting, six_digit_code,
    Controller, Device, LocalCommand, PairingError, SessionError, SessionMessage, Setting,
    HEARTBEAT_TIMEOUT_US, MAX_DEVICES, PAIRING_WINDOW_US,
};
use linmic::control::{accepts_connection, devices_valid, hello_supported};
use linmic::network::IpAddress;

fn device(id: &str, token: &str) -> Device {
    Device { id: id.to_string(), name: "Phone".to_string(), token: token.to_string() }
}

fn phone() -> IpAddress {
    IpAddress::V4([192, 168, 1, 20])
}

#[test]
fn six_digit_codes_keep_leading_zeros() {
    assert_eq!(six_digit_code(0), "000000");
    assert_eq!(six_digit_code(42), "000042");
    assert_eq!(six_digit_code(123456), "123456");
    assert_eq!(six_digit_code(999_999), "999999");
}

#[test]
fn constant_time_comparison_is_equality() {
    assert!(constant_equal("abc", "abc"));
    assert!(!constant_equal("abc", "abd"));
    assert!(!constant_equal("abc", "abcd"));
    assert!(constant_equal("", ""));
}

#[test]
fn names_lose_control_characters_and_stop_at_64() {
    assert_eq!(sanitize_name("Pixel\n7\u{7f}"), "Pixel7");
    assert_eq!(sanitize_name("caf\u{e9}\u{85}"), "caf\u{e9}");
    let long = "x".repeat(70);
    assert_eq!(sanitize_name(&long), "x".repeat(64));
    let mixed = format!("{}\u{1}{}", "a".repeat(63), "bc");
    assert_eq!(sanitize_name(&mixed), format!("{}b", "a".repeat(63)));
}

#[test]
fn local_commands_and_settings_are_read_by_name() {
    assert_eq!(local_command("status"), LocalCommand::Status);
    assert_eq!(local_command("stats"), LocalCommand::Status);
    assert_eq!(local_command("pipewire-info"), LocalCommand::Status);
    assert_eq!(local_command("toggle-mute"), LocalCommand::ToggleMute);
    assert_eq!(local_command("pair-cancel"), LocalCommand::PairCancel);
    assert_eq!(local_command("config-set"), LocalCommand::ConfigSet);
    assert_eq!(local_command(""), LocalCommand::Unknown);
    assert_eq!(local_command("Status"), LocalCommand::Unknown);
    assert_eq!(setting("gain-db"), Some(Setting::GainDb));
    assert_eq!(setting("jitter-target"), Some(Setting::JitterTarget));
    assert_eq!(setting("volume"), None);
}

#[test]
fn session_messages_are_read_by_type() {
    assert_eq!(session_message("start_stream"), SessionMessage::StartStream);
    assert_eq!(session_message("stats_client"), SessionMessage::Ping);
    assert_eq!(session_message("disconnect"), SessionMessage::Stop);
    assert_eq!(session_message("stop_stream"), SessionMessage::Stop);
    assert_eq!(session_message("set_profile"), SessionMessage::SetProfile);
    assert_eq!(session_message("reboot"), SessionMessage::Unknown);
}

#[test]
fn hello_must_name_protocol_one() {
    assert!(hello_supported("hello", Some(1)));
    assert!(!hello_supported("hello", Some(2)));
    assert!(!hello_supported("hello", None));
    assert!(!hello_supported("helo", Some(1)));
}

#[test]
fn pairing_window_limits_attempts_and_time() {
    let mut c = Controller::new(Vec::new());
    assert_eq!(c.begin_pairing_attempt(0).err(), Some(PairingError::NotOpen));
    let code = c.open_pairing(1_000);
    assert_eq!(code.len(), 6);
    assert!(code.bytes().all(|b| b.is_ascii_digit()));
    for attempt in 0..5 {
        let (shown, issued) = c.begin_pairing_attempt(2_000 + attempt).unwrap();
        assert_eq!((shown.as_str(), issued), (code.as_str(), 1_000));
    }
    assert_eq!(c.begin_pairing_attempt(3_000).err(), Some(PairingError::ExpiredOrLocked));
    c.open_pairing(10_000);
    assert_eq!(
        c.begin_pairing_attempt(10_000 + PAIRING_WINDOW_US).err(),
        Some(PairingError::ExpiredOrLocked)
    );
    assert!(c.begin_pairing_attempt(10_000 + PAIRING_WINDOW_US - 1).is_ok());
    c.cancel_pairing();
    assert!(c.pairing.is_none());
}

#[test]
fn admission_needs_the_issuing_window_and_room() {
    let mut c = Controller::new(Vec::new());
    c.open_pairing(500);
    assert_eq!(c.admit_device(499, 600, device("a", "t")), Err(PairingError::ExpiredOrUsed));
    assert_eq!(
        c.admit_device(500, 500 + PAIRING_WINDOW_US, device("a", "t")),
        Err(PairingError::ExpiredOrUsed)
    );
    assert_eq!(c.admit_device(500, 600, device("a", "t")), Ok(()));
    assert_eq!(c.devices.len(), 1);
    c.remove_last_device();
    assert!(c.devices.is_empty());
    let full: Vec<Device> = (0..MAX_DEVICES).map(|i| device(&i.to_string(), "t")).collect();
    let mut c = Controller::new(full);
    c.open_pairing(0);
    assert_eq!(c.admit_device(0, 1, device("x", "t")), Err(PairingError::DeviceLimit));
}

#[test]
fn tokens_identify_devices_only_at_full_length() {
    let t1 = "a".repeat(64);
    let t2 = "b".repeat(64);
    let c = Controller::new(vec![device("one", &t1), device("two", &t2), device("three", "short")]);
    assert_eq!(c.device_for_token(&t2).as_deref(), Some("two"));
    assert_eq!(c.device_for_token(&t1).as_deref(), Some("one"));
    assert_eq!(c.device_for_token("short"), None);
    assert_eq!(c.device_for_token(&"c".repeat(64)), None);
}

#[test]
fn forgetting_a_device_ends_its_session() {
    let mut c = Controller::new(vec![device("one", "t"), device("two", "u"), device("one", "v")]);
    c.open_session(0, phone(), "P".into(), "one".into(), 480).unwrap();
    c.remove_device("one");
    assert_eq!(c.devices.len(), 1);
    assert_eq!(c.devices[0].id, "two");
    assert!(c.end_session_of_device("one"));
    assert!(c.session.is_none());
    assert_eq!(c.state, State::Idle);
    assert!(!c.end_session_of_device("one"));
}

#[test]
fn one_phone_at_a_time_until_its_heartbeat_lapses() {
    let mut c = Controller::new(Vec::new());
    let (id, key) = c.open_session(1_000, phone(), "P".into(), "d".into(), 480).unwrap();
    assert!(id >= 1);
    assert_ne!(key, [0; 32]);
    assert_eq!(c.state, State::Connected);
    assert_eq!(
        c.open_session(1_000 + HEARTBEAT_TIMEOUT_US, phone(), "Q".into(), "e".into(), 480).err(),
        Some(SessionError::Busy)
    );
    assert!(c.heartbeat(id, 2_000));
    assert!(!c.heartbeat(id.wrapping_add(1), 2_000));
    assert!(c.open_session(2_001 + HEARTBEAT_TIMEOUT_US, phone(), "Q".into(), "e".into(), 960).is_ok());
    assert!(!c.end_session(id));
}

#[test]
fn streaming_follows_mute_from_both_ends() {
    let mut c = Controller::new(Vec::new());
    let (id, _) = c.open_session(0, phone(), "P".into(), "d".into(), 480).unwrap();
    assert!(c.active_stream(1).is_none());
    assert_eq!(c.start_stream(), (false, 0));
    assert_eq!(c.state, State::Streaming);
    let s = c.active_stream(1).unwrap();
    assert_eq!((s.id, s.frame), (id, 480));
    assert!(c.active_stream(HEARTBEAT_TIMEOUT_US).is_none());
    assert_eq!(c.local_mute(LocalCommand::Mute), (true, 1));
    assert_eq!(c.state, State::Muted);
    assert_eq!(c.remote_mute(false, 0), (true, 1));
    assert_eq!(c.remote_mute(false, 1), (false, 2));
    assert_eq!(c.state, State::Streaming);
    assert_eq!(c.local_mute(LocalCommand::ToggleMute), (true, 3));
    assert_eq!(c.remote_mute(false, u64::MAX), (false, u64::MAX));
    assert!(!c.frame_done(id.wrapping_add(1), false));
    assert!(c.frame_done(id, true));
    assert_eq!(c.state, State::Muted);
    c.mark_reconnecting(id);
    assert_eq!(c.state, State::Reconnecting);
    assert!(c.end_session(id));
    assert_eq!(c.state, State::Idle);
}

#[test]
fn local_mute_before_streaming_keeps_the_state() {
    let mut c = Controller::new(Vec::new());
    assert_eq!(c.local_mute(LocalCommand::Unmute), (false, 1));
    assert_eq!(c.state, State::Idle);
    c.revision = u64::MAX;
    assert_eq!(c.local_mute(LocalCommand::Mute), (true, 0));
    c.disconnect();
    assert_eq!(c.state, State::Idle);
    assert!(c.muted);
}

#[test]
fn stored_devices_are_checked_before_use() {
    let good = || device(&"1".repeat(64), &"2".repeat(64));
    assert!(devices_valid(&vec![good(), good()]));
    assert!(devices_valid(&Vec::new()));
    assert!(!devices_valid(&vec![good(), device("short", &"2".repeat(64))]));
    // Lengths count bytes: 32 two-byte characters make a 64-byte token.
    assert!(devices_valid(&vec![device(&"1".repeat(64), &"é".repeat(32))]));
    assert!(!devices_valid(&(0..33).map(|_| good()).collect()));
}

#[test]
fn four_control_connections_at_a_time() {
    assert!(accepts_connection(0));
    assert!(accepts_connection(3));
    assert!(!accepts_connection(4));
}
