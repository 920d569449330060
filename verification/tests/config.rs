use linmic::config::{profile, validate_settings, ConfigError, Discovery, Jitter, Network, Pipewire};

#[test]
fn profiles() {
    assert_eq!(profile("balanced").unwrap().0, 480);
    assert!(profile("unknown").is_err());
}

#[test]
fn every_profile_has_its_frame_bitrate_and_loss() {
    assert_eq!(profile("ultra"), Ok((240, 64000, 10)));
    assert_eq!(profile("balanced"), Ok((480, 48000, 20)));
    assert_eq!(profile("stable"), Ok((960, 48000, 50)));
    assert_eq!(profile("Stable"), Err(ConfigError::UnknownProfile));
    assert_eq!(profile(""), Err(ConfigError::UnknownProfile));
}

#[test]
fn defaults() {
    let n = Network::default();
    assert_eq!((n.bind.as_str(), n.control_port, n.audio_port), ("0.0.0.0", 39820, 39821));
    let j = Jitter::default();
    assert_eq!((j.target_ms, j.min_ms, j.max_ms, j.adaptive), (20, 10, 80, true));
    let p = Pipewire::default();
    assert_eq!((p.node_name.as_str(), p.node_description.as_str()), ("linmic_input", "LinMic"));
    assert!(Discovery::default().enabled);
}

#[test]
fn default_settings_validate() {
    assert_eq!(validate_settings(&Jitter::default(), &Network::default(), "balanced"), Ok(()));
}

#[test]
fn settings_refusals() {
    let n = Network::default();
    let j = |min_ms, target_ms, max_ms| Jitter { target_ms, min_ms, max_ms, adaptive: true };
    assert_eq!(validate_settings(&j(4, 20, 80), &n, "balanced"), Err(ConfigError::InvalidJitter));
    assert_eq!(validate_settings(&j(81, 90, 90), &n, "balanced"), Err(ConfigError::InvalidJitter));
    assert_eq!(validate_settings(&j(30, 20, 80), &n, "balanced"), Err(ConfigError::InvalidJitter));
    assert_eq!(validate_settings(&j(10, 90, 80), &n, "balanced"), Err(ConfigError::InvalidJitter));
    assert_eq!(validate_settings(&j(10, 20, 101), &n, "balanced"), Err(ConfigError::InvalidJitter));
    assert_eq!(validate_settings(&j(5, 5, 100), &n, "ultra"), Ok(()));
    let zero = Network { bind: "0.0.0.0".into(), control_port: 0, audio_port: 1 };
    assert_eq!(validate_settings(&j(10, 20, 80), &zero, "balanced"), Err(ConfigError::ZeroPort));
    assert_eq!(validate_settings(&j(10, 20, 80), &n, "fast"), Err(ConfigError::UnknownProfile));
}
