//! Daemon state, configuration sections with their defaults and limits, and audio profiles.
use vstd::prelude::*;
use std::sync::atomic::{AtomicBool, AtomicU32, AtomicU64};
use crate::text::str_eq;

verus! {

/// Samples per second of every audio stream.
pub const RATE: usize = 48_000;

/// The daemon's connection state as shown to users.
#[derive(Debug, Clone, Copy, PartialEq, Eq, Structural)]
pub enum State {
    Idle,
    Discovering,
    Pairing,
    Connecting,
    Connected,
    Streaming,
    Muted,
    Reconnecting,
    Stopping,
    Error,
}

/// Why a configuration was refused.
#[derive(Debug, Clone, Copy, PartialEq, Eq, Structural)]
pub enum ConfigError {
    /// Receive gain outside -60..=24 dB or not a number.
    InvalidGain,
    /// Jitter limits out of range or out of order.
    InvalidJitter,
    /// A port of zero.
    ZeroPort,
    /// A profile other than ultra, balanced or stable.
    UnknownProfile,
}

/// Where the daemon listens.
pub struct Network {
    pub bind: String,
    pub control_port: u16,
    pub audio_port: u16,
}

/// Jitter buffer delay limits, in milliseconds.
#[derive(Clone, Copy)]
pub struct Jitter {
    pub target_ms: u32,
    pub min_ms: u32,
    pub max_ms: u32,
    pub adaptive: bool,
}

/// The PipeWire source that the daemon publishes.
pub struct Pipewire {
    pub node_name: String,
    pub node_description: String,
}

/// Whether the daemon announces itself over mDNS.
#[derive(Clone, Copy)]
pub struct Discovery {
    pub enabled: bool,
}

impl Default for Network {
    fn default() -> (r: Self)
        ensures
            r.bind@ == "0.0.0.0"@,
            r.control_port == 39820,
            r.audio_port == 39821,
    {
        Network { bind: "0.0.0.0".to_owned(), control_port: 39820, audio_port: 39821 }
    }
}

impl Default for Jitter {
    fn default() -> (r: Self)
        ensures
            r.target_ms == 20,
            r.min_ms == 10,
            r.max_ms == 80,
            r.adaptive,
    {
        Jitter { target_ms: 20, min_ms: 10, max_ms: 80, adaptive: true }
    }
}

impl Default for Pipewire {
    fn default() -> (r: Self)
        ensures
            r.node_name@ == "linmic_input"@,
            r.node_description@ == "LinMic"@,
    {
        Pipewire { node_name: "linmic_input".to_owned(), node_description: "LinMic".to_owned() }
    }
}

impl Default for Discovery {
    fn default() -> (r: Self)
        ensures
            r.enabled,
    {
        Discovery { enabled: true }
    }
}

/// Frame samples, Opus bitrate and sender loss percentage of a named profile.
pub open spec fn profile_of(name: Seq<char>) -> Option<(usize, u32, u32)> {
    if name == "ultra"@ {
        Some((240usize, 64000u32, 10u32))
    } else if name == "balanced"@ {
        Some((480usize, 48000u32, 20u32))
    } else if name == "stable"@ {
        Some((960usize, 48000u32, 50u32))
    } else {
        None
    }
}

/// Looks up an audio profile: ultra (5 ms), balanced (10 ms) or stable (20 ms).
pub fn profile(name: &str) -> (r: Result<(usize, u32, u32), ConfigError>)
    ensures
        match profile_of(name@) {
            Some(p) => r == Ok::<(usize, u32, u32), ConfigError>(p),
            None => r == Err::<(usize, u32, u32), ConfigError>(ConfigError::UnknownProfile),
        },
{
    if str_eq(name, "ultra") {
        Ok((240, 64000, 10))
    } else if str_eq(name, "balanced") {
        Ok((480, 48000, 20))
    } else if str_eq(name, "stable") {
        Ok((960, 48000, 50))
    } else {
        Err(ConfigError::UnknownProfile)
    }
}

/// Whether jitter limits are in range and ordered: 5 <= min <= target <= max <= 100, min <= 80.
pub open spec fn jitter_limits_ok(j: Jitter) -> bool {
    &&& 5 <= j.min_ms <= 80
    &&& j.min_ms <= j.target_ms
    &&& j.target_ms <= j.max_ms
    &&& j.max_ms <= 100
}

/// Checks every setting but the gain: jitter limits, then ports, then the profile name.
pub fn validate_settings(jitter: &Jitter, network: &Network, default_profile: &str) -> (r: Result<
    (),
    ConfigError,
>)
    ensures
        !jitter_limits_ok(*jitter) ==> r == Err::<(), ConfigError>(ConfigError::InvalidJitter),
        jitter_limits_ok(*jitter) && (network.control_port == 0 || network.audio_port == 0)
            ==> r == Err::<(), ConfigError>(ConfigError::ZeroPort),
        jitter_limits_ok(*jitter) && network.control_port != 0 && network.audio_port != 0 ==> (r
            is Ok <==> profile_of(default_profile@) is Some),
        r is Err && jitter_limits_ok(*jitter) && network.control_port != 0 && network.audio_port
            != 0 ==> r == Err::<(), ConfigError>(ConfigError::UnknownProfile),
{
    if !(5 <= jitter.min_ms && jitter.min_ms <= 80) || jitter.min_ms > jitter.target_ms
        || jitter.target_ms > jitter.max_ms || jitter.max_ms > 100 {
        return Err(ConfigError::InvalidJitter);
    }
    if network.control_port == 0 || network.audio_port == 0 {
        return Err(ConfigError::ZeroPort);
    }
    match profile(default_profile) {
        Ok(_) => Ok(()),
        Err(e) => Err(e),
    }
}

/// Live receive and output statistics shared between the audio threads and status reports.
#[derive(Default)]
pub struct Counters {
    pub packets: AtomicU64,
    pub bytes: AtomicU64,
    pub invalid: AtomicU64,
    pub duplicate: AtomicU64,
    pub lost: AtomicU64,
    pub late: AtomicU64,
    pub plc: AtomicU64,
    pub decode_errors: AtomicU64,
    pub underruns: AtomicU64,
    pub overruns: AtomicU64,
    pub rms: AtomicU32,
    pub peak: AtomicU32,
    pub jitter_us: AtomicU64,
    pub buffer_ms: AtomicU32,
    pub output_samples: AtomicU32,
    pub ratio: AtomicU32,
    pub node_id: AtomicU32,
    pub quantum: AtomicU32,
    pub pipewire_connected: AtomicBool,
    pub session_packets: AtomicU64,
    pub session_lost: AtomicU64,
    pub waveform: [AtomicU32; 32],
    pub generation: AtomicU64,
}

} // verus!
