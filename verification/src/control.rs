//! The daemon's decisions about pairing, paired devices, sessions and mute, kept apart from
//! the sockets and files that carry them out.
use vstd::prelude::*;
use vstd::string::StringSliceAdditionalSpecFns;
use vstd::utf8::{encode_utf8, encode_utf8_decode_utf8};
use crate::config::State;
use crate::crypto::{os_random_bytes, os_random_range};
use crate::network::IpAddress;
use crate::text::{push_char, str_eq};

verus! {

/// How long a pairing code stays valid, in microseconds.
pub const PAIRING_WINDOW_US: u64 = 120_000_000;

/// How many exchanges one pairing code may start.
pub const MAX_PAIRING_ATTEMPTS: u8 = 5;

/// How many devices may be paired at once.
pub const MAX_DEVICES: usize = 32;

/// Silence from a phone after which its session may be replaced, in microseconds.
pub const HEARTBEAT_TIMEOUT_US: u64 = 5_000_000;

/// Most control connections served at once.
pub const MAX_CONTROL_WORKERS: usize = 4;

/// Length of a device token or identifier in hex digits.
pub const TOKEN_LEN: usize = 64;

/// Longest display name kept for a phone, in characters.
pub const MAX_NAME_CHARS: usize = 64;

/// A paired phone: its identifier, display name and secret token.
pub struct Device {
    pub id: String,
    pub name: String,
    pub token: String,
}

/// The authenticated phone that may stream audio.
pub struct Session {
    pub id: u32,
    pub key: [u8; 32],
    pub ip: IpAddress,
    pub name: String,
    pub device: String,
    pub frame: usize,
    pub started: bool,
    pub heartbeat_us: u64,
    pub created_us: u64,
}

/// An open pairing window: the code, when it was issued and how many exchanges it started.
pub struct PairingWindow {
    pub code: String,
    pub created_us: u64,
    pub attempts: u8,
}

/// What the daemon knows about pairing, devices, the session and mute.
pub struct Controller {
    pub state: State,
    pub session: Option<Session>,
    pub muted: bool,
    pub revision: u64,
    pub pairing: Option<PairingWindow>,
    pub devices: Vec<Device>,
}

/// The parts of the session that the audio receiver needs.
#[derive(Clone, Copy)]
pub struct ActiveStream {
    pub id: u32,
    pub key: [u8; 32],
    pub ip: IpAddress,
    pub frame: usize,
    pub created_us: u64,
}

/// A request received on the local control socket.
#[derive(Debug, Clone, Copy, PartialEq, Eq, Structural)]
pub enum LocalCommand {
    Status,
    Disconnect,
    Devices,
    Forget,
    PairCancel,
    Pair,
    Mute,
    Unmute,
    ToggleMute,
    ConfigShow,
    ConfigSet,
    Unknown,
}

/// A setting that the local control socket may change.
#[derive(Debug, Clone, Copy, PartialEq, Eq, Structural)]
pub enum Setting {
    GainDb,
    Profile,
    NoiseGate,
    Agc,
    JitterTarget,
}

/// Why a pairing step was refused.
#[derive(Debug, Clone, Copy, PartialEq, Eq, Structural)]
pub enum PairingError {
    /// No pairing window is open.
    NotOpen,
    /// The window expired or used up its attempts.
    ExpiredOrLocked,
    /// The window that issued the code expired or was used meanwhile.
    ExpiredOrUsed,
    /// The device list is full.
    DeviceLimit,
}

/// Why a session could not start.
#[derive(Debug, Clone, Copy, PartialEq, Eq, Structural)]
pub enum SessionError {
    /// Another phone holds a live session.
    Busy,
}

/// Whether a new control connection is served while `active` others are; it is closed
/// unanswered otherwise.
pub fn accepts_connection(active: usize) -> (r: bool)
    ensures
        r == (active < MAX_CONTROL_WORKERS),
{
    active < MAX_CONTROL_WORKERS
}

/// Time passed from `then` to `now`, never negative.
pub open spec fn elapsed(now: u64, then: u64) -> int {
    if now >= then {
        now - then
    } else {
        0
    }
}

fn elapsed_us(now: u64, then: u64) -> (r: u64)
    ensures
        r == elapsed(now, then),
{
    if now >= then {
        now - then
    } else {
        0
    }
}

/// The user-visible state while a started session is muted or not.
pub open spec fn stream_state(muted: bool) -> State {
    if muted {
        State::Muted
    } else {
        State::Streaming
    }
}

/// The request that a local message type names.
pub open spec fn command_of(kind: Seq<char>) -> LocalCommand {
    if kind == "status"@ || kind == "stats"@ || kind == "pipewire-info"@ {
        LocalCommand::Status
    } else if kind == "disconnect"@ {
        LocalCommand::Disconnect
    } else if kind == "devices"@ {
        LocalCommand::Devices
    } else if kind == "forget"@ {
        LocalCommand::Forget
    } else if kind == "pair-cancel"@ {
        LocalCommand::PairCancel
    } else if kind == "pair"@ {
        LocalCommand::Pair
    } else if kind == "mute"@ {
        LocalCommand::Mute
    } else if kind == "unmute"@ {
        LocalCommand::Unmute
    } else if kind == "toggle-mute"@ {
        LocalCommand::ToggleMute
    } else if kind == "config-show"@ {
        LocalCommand::ConfigShow
    } else if kind == "config-set"@ {
        LocalCommand::ConfigSet
    } else {
        LocalCommand::Unknown
    }
}

/// Reads the type of a local control message.
pub fn local_command(kind: &str) -> (r: LocalCommand)
    ensures
        r == command_of(kind@),
        (r == LocalCommand::Status) <==> (kind@ == "status"@ || kind@ == "stats"@ || kind@
            == "pipewire-info"@),
        (r == LocalCommand::Disconnect) <==> kind@ == "disconnect"@,
        (r == LocalCommand::Devices) <==> kind@ == "devices"@,
        (r == LocalCommand::Forget) <==> kind@ == "forget"@,
        (r == LocalCommand::PairCancel) <==> kind@ == "pair-cancel"@,
        (r == LocalCommand::Pair) <==> kind@ == "pair"@,
        (r == LocalCommand::Mute) <==> kind@ == "mute"@,
        (r == LocalCommand::Unmute) <==> kind@ == "unmute"@,
        (r == LocalCommand::ToggleMute) <==> kind@ == "toggle-mute"@,
        (r == LocalCommand::ConfigShow) <==> kind@ == "config-show"@,
        (r == LocalCommand::ConfigSet) <==> kind@ == "config-set"@,
{
    proof {
        lemma_local_command_names(kind@);
    }
    if str_eq(kind, "status") || str_eq(kind, "stats") || str_eq(kind, "pipewire-info") {
        LocalCommand::Status
    } else if str_eq(kind, "disconnect") {
        LocalCommand::Disconnect
    } else if str_eq(kind, "devices") {
        LocalCommand::Devices
    } else if str_eq(kind, "forget") {
        LocalCommand::Forget
    } else if str_eq(kind, "pair-cancel") {
        LocalCommand::PairCancel
    } else if str_eq(kind, "pair") {
        LocalCommand::Pair
    } else if str_eq(kind, "mute") {
        LocalCommand::Mute
    } else if str_eq(kind, "unmute") {
        LocalCommand::Unmute
    } else if str_eq(kind, "toggle-mute") {
        LocalCommand::ToggleMute
    } else if str_eq(kind, "config-show") {
        LocalCommand::ConfigShow
    } else if str_eq(kind, "config-set") {
        LocalCommand::ConfigSet
    } else {
        LocalCommand::Unknown
    }
}

/// A message a phone sends on its control connection while its session is open.
#[derive(Debug, Clone, Copy, PartialEq, Eq, Structural)]
pub enum SessionMessage {
    StartStream,
    Ping,
    Mute,
    Unmute,
    SetGain,
    SetProfile,
    Stop,
    Unknown,
}

/// The session message that a message type names.
pub open spec fn session_message_of(kind: Seq<char>) -> SessionMessage {
    if kind == "start_stream"@ {
        SessionMessage::StartStream
    } else if kind == "ping"@ || kind == "stats_client"@ {
        SessionMessage::Ping
    } else if kind == "mute"@ {
        SessionMessage::Mute
    } else if kind == "unmute"@ {
        SessionMessage::Unmute
    } else if kind == "set_gain"@ {
        SessionMessage::SetGain
    } else if kind == "set_profile"@ {
        SessionMessage::SetProfile
    } else if kind == "stop_stream"@ || kind == "disconnect"@ {
        SessionMessage::Stop
    } else {
        SessionMessage::Unknown
    }
}

/// Reads the type of a phone's session message.
pub fn session_message(kind: &str) -> (r: SessionMessage)
    ensures
        r == session_message_of(kind@),
        (r == SessionMessage::StartStream) <==> kind@ == "start_stream"@,
        (r == SessionMessage::Ping) <==> (kind@ == "ping"@ || kind@ == "stats_client"@),
        (r == SessionMessage::Mute) <==> kind@ == "mute"@,
        (r == SessionMessage::Unmute) <==> kind@ == "unmute"@,
        (r == SessionMessage::SetGain) <==> kind@ == "set_gain"@,
        (r == SessionMessage::SetProfile) <==> kind@ == "set_profile"@,
        (r == SessionMessage::Stop) <==> (kind@ == "stop_stream"@ || kind@ == "disconnect"@),
{
    proof {
        lemma_session_message_names(kind@);
    }
    if str_eq(kind, "start_stream") {
        SessionMessage::StartStream
    } else if str_eq(kind, "ping") || str_eq(kind, "stats_client") {
        SessionMessage::Ping
    } else if str_eq(kind, "mute") {
        SessionMessage::Mute
    } else if str_eq(kind, "unmute") {
        SessionMessage::Unmute
    } else if str_eq(kind, "set_gain") {
        SessionMessage::SetGain
    } else if str_eq(kind, "set_profile") {
        SessionMessage::SetProfile
    } else if str_eq(kind, "stop_stream") || str_eq(kind, "disconnect") {
        SessionMessage::Stop
    } else {
        SessionMessage::Unknown
    }
}

/// The setting that a `config-set` key names, if any.
pub open spec fn setting_of(key: Seq<char>) -> Option<Setting> {
    if key == "gain-db"@ {
        Some(Setting::GainDb)
    } else if key == "profile"@ {
        Some(Setting::Profile)
    } else if key == "noise-gate"@ {
        Some(Setting::NoiseGate)
    } else if key == "agc"@ {
        Some(Setting::Agc)
    } else if key == "jitter-target"@ {
        Some(Setting::JitterTarget)
    } else {
        None
    }
}

/// Reads the key of a `config-set` request.
pub fn setting(key: &str) -> (r: Option<Setting>)
    ensures
        r == setting_of(key@),
        (r == Some(Setting::GainDb)) <==> key@ == "gain-db"@,
        (r == Some(Setting::Profile)) <==> key@ == "profile"@,
        (r == Some(Setting::NoiseGate)) <==> key@ == "noise-gate"@,
        (r == Some(Setting::Agc)) <==> key@ == "agc"@,
        (r == Some(Setting::JitterTarget)) <==> key@ == "jitter-target"@,
{
    proof {
        lemma_setting_names(key@);
    }
    if str_eq(key, "gain-db") {
        Some(Setting::GainDb)
    } else if str_eq(key, "profile") {
        Some(Setting::Profile)
    } else if str_eq(key, "noise-gate") {
        Some(Setting::NoiseGate)
    } else if str_eq(key, "agc") {
        Some(Setting::Agc)
    } else if str_eq(key, "jitter-target") {
        Some(Setting::JitterTarget)
    } else {
        None
    }
}

/// Compares two strings without stopping at the first difference, so the time taken does
/// not reveal where a guessed token goes wrong.
pub fn constant_equal(a: &str, b: &str) -> (r: bool)
    ensures
        r == (a@ == b@),
{
    let x = a.as_bytes();
    let y = b.as_bytes();
    proof {
        encode_utf8_decode_utf8(a@);
        encode_utf8_decode_utf8(b@);
    }
    if x.len() != y.len() {
        return false;
    }
    let mut acc: u8 = 0;
    let mut i: usize = 0;
    while i < x.len()
        invariant
            i <= x@.len(),
            x@.len() == y@.len(),
            acc == 0 <==> forall|j: int| 0 <= j < i ==> x@[j] == y@[j],
        decreases x@.len() - i,
    {
        let xi = x[i];
        let yi = y[i];
        let next = acc | (xi ^ yi);
        assert(next == 0 <==> (acc == 0 && xi == yi)) by (bit_vector)
            requires
                next == acc | (xi ^ yi),
        ;
        acc = next;
        i += 1;
    }
    assert(acc == 0 <==> x@ =~= y@);
    acc == 0
}

/// The six decimal digits of `n`, with leading zeros.
pub open spec fn six_digits(n: u32) -> Seq<char> {
    Seq::new(6, |i: int| (48 + ((n as int) / pow10(5 - i)) % 10) as char)
}

/// Ten to the power `e`, for small `e`.
pub open spec fn pow10(e: int) -> int
    decreases e,
{
    if e <= 0 {
        1
    } else {
        10 * pow10(e - 1)
    }
}

/// Writes `n` below one million as six digits, with leading zeros.
pub fn six_digit_code(n: u32) -> (r: String)
    requires
        n < 1_000_000,
    ensures
        r@ == six_digits(n),
{
    let mut r = String::new();
    let mut div: u32 = 100_000;
    let mut i: usize = 0;
    proof {
        reveal_with_fuel(pow10, 6);
    }
    while i < 6
        invariant
            i <= 6,
            div as int == pow10(5 - i as int),
            i == 0 ==> div == 100_000,
            i == 1 ==> div == 10_000,
            i == 2 ==> div == 1_000,
            i == 3 ==> div == 100,
            i == 4 ==> div == 10,
            i == 5 ==> div == 1,
            n < 1_000_000,
            r@.len() == i,
            forall|j: int| 0 <= j < i ==> r@[j] == six_digits(n)[j],
        decreases 6 - i,
    {
        let d = (n / div) % 10;
        let c = (48u8 + d as u8) as char;
        push_char(&mut r, c);
        proof {
            reveal_with_fuel(pow10, 6);
        }
        if i < 5 {
            div = div / 10;
        }
        i += 1;
    }
    assert(r@ =~= six_digits(n));
    r
}

/// Whether a hello opens a session of protocol version 1.
pub fn hello_supported(kind: &str, protocol: Option<i64>) -> (r: bool)
    ensures
        r == (kind@ == "hello"@ && protocol == Some(1i64)),
{
    str_eq(kind, "hello") && match protocol {
        Some(p) => p == 1,
        None => false,
    }
}

/// Whether a character belongs to Unicode's control category (U+0000 to U+001F, U+007F to
/// U+009F).
pub open spec fn is_control(c: char) -> bool {
    (c as u32) <= 0x1f || (0x7f <= (c as u32) && (c as u32) <= 0x9f)
}

/// The first `n` elements of `s`, or all of `s` when it is shorter.
pub open spec fn at_most<A>(s: Seq<A>, n: int) -> Seq<A> {
    if s.len() <= n {
        s
    } else {
        s.take(n)
    }
}

/// The name kept for a phone: its characters without control characters, at most 64.
pub open spec fn display_name(raw: Seq<char>) -> Seq<char> {
    at_most(raw.filter(|c: char| !is_control(c)), MAX_NAME_CHARS as int)
}

/// Whether a stored device list may be loaded: at most 32 devices, each with an identifier
/// and a token of 64 bytes.
pub open spec fn devices_well_formed(devices: Seq<Device>) -> bool {
    &&& devices.len() <= MAX_DEVICES
    &&& forall|i: int|
        0 <= i < devices.len() ==> encode_utf8((#[trigger] devices[i]).id@).len() == TOKEN_LEN
            && encode_utf8(devices[i].token@).len() == TOKEN_LEN
}

/// Checks a device list read from disk before the daemon trusts it.
pub fn devices_valid(devices: &Vec<Device>) -> (r: bool)
    ensures
        r == devices_well_formed(devices@),
{
    if devices.len() > MAX_DEVICES {
        return false;
    }
    let mut i: usize = 0;
    while i < devices.len()
        invariant
            i <= devices@.len(),
            devices@.len() <= MAX_DEVICES,
            forall|j: int|
                0 <= j < i ==> encode_utf8((#[trigger] devices@[j]).id@).len() == TOKEN_LEN
                    && encode_utf8(devices@[j].token@).len() == TOKEN_LEN,
        decreases devices@.len() - i,
    {
        let d = &devices[i];
        if d.id.as_str().as_bytes().len() != TOKEN_LEN || d.token.as_str().as_bytes().len()
            != TOKEN_LEN {
            return false;
        }
        i += 1;
    }
    true
}

impl Controller {
    /// What every operation keeps: at most 32 paired devices, a pairing window that started
    /// at most five exchanges, and a session whose id is not 0.
    pub open spec fn wf(&self) -> bool {
        &&& self.devices@.len() <= MAX_DEVICES
        &&& self.pairing is Some ==> self.pairing->Some_0.attempts <= MAX_PAIRING_ATTEMPTS
        &&& self.session is Some ==> self.session->Some_0.id != 0
    }

    /// A controller with no session, no pairing window and the given paired devices.
    pub fn new(devices: Vec<Device>) -> (r: Self)
        ensures
            devices@.len() <= MAX_DEVICES ==> r.wf(),
            r.state == State::Idle,
            r.session is None,
            !r.muted,
            r.revision == 0,
            r.pairing is None,
            r.devices@ == devices@,
    {
        Controller {
            state: State::Idle,
            session: None,
            muted: false,
            revision: 0,
            pairing: None,
            devices,
        }
    }

    /// Ends any session. The caller silences the output and starts a new audio generation.
    pub fn disconnect(&mut self)
        ensures
            old(self).wf() ==> final(self).wf(),
            final(self).session is None,
            final(self).state == State::Idle,
            final(self).muted == old(self).muted,
            final(self).revision == old(self).revision,
            final(self).pairing == old(self).pairing,
            final(self).devices@ == old(self).devices@,
    {
        self.session = None;
        self.state = State::Idle;
    }

    /// Closes the pairing window.
    pub fn cancel_pairing(&mut self)
        ensures
            old(self).wf() ==> final(self).wf(),
            final(self).pairing is None,
            final(self).state == old(self).state,
            final(self).session == old(self).session,
            final(self).muted == old(self).muted,
            final(self).revision == old(self).revision,
            final(self).devices@ == old(self).devices@,
    {
        self.pairing = None;
    }

    /// Opens a fresh 120-second pairing window with a random six-digit code and returns it.
    pub fn open_pairing(&mut self, now: u64) -> (r: String)
        ensures
            old(self).wf() ==> final(self).wf(),
            exists|n: u32| n < 1_000_000 && r@ == six_digits(n),
            final(self).pairing is Some,
            final(self).pairing->Some_0.code@ == r@,
            final(self).pairing->Some_0.created_us == now,
            final(self).pairing->Some_0.attempts == 0,
            final(self).state == old(self).state,
            final(self).session == old(self).session,
            final(self).muted == old(self).muted,
            final(self).revision == old(self).revision,
            final(self).devices@ == old(self).devices@,
    {
        let n = os_random_range(0, 1_000_000);
        let code = six_digit_code(n);
        let shown = code.clone();
        self.pairing = Some(PairingWindow { code, created_us: now, attempts: 0 });
        shown
    }

    /// Mutes, unmutes or toggles from the desktop. Every change counts as a new revision;
    /// a started session shows the new mute state. Returns the mute state and revision.
    pub fn local_mute(&mut self, command: LocalCommand) -> (r: (bool, u64))
        requires
            command == LocalCommand::Mute || command == LocalCommand::Unmute || command
                == LocalCommand::ToggleMute,
        ensures
            old(self).wf() ==> final(self).wf(),
            final(self).muted == match command {
                LocalCommand::Mute => true,
                LocalCommand::Unmute => false,
                _ => !old(self).muted,
            },
            final(self).revision == (if old(self).revision == u64::MAX {
                0int
            } else {
                old(self).revision + 1
            }),
            final(self).state == (if old(self).session is Some && old(self).session->Some_0.started {
                stream_state(final(self).muted)
            } else {
                old(self).state
            }),
            r == (final(self).muted, final(self).revision),
            final(self).session == old(self).session,
            final(self).pairing == old(self).pairing,
            final(self).devices@ == old(self).devices@,
    {
        self.muted = match command {
            LocalCommand::Mute => true,
            LocalCommand::Unmute => false,
            _ => !self.muted,
        };
        self.revision = self.revision.wrapping_add(1);
        let started = match &self.session {
            Some(s) => s.started,
            None => false,
        };
        if started {
            self.state = if self.muted {
                State::Muted
            } else {
                State::Streaming
            };
        }
        (self.muted, self.revision)
    }

    /// Mute or unmute requested by the phone with its revision; a stale revision changes
    /// nothing. Returns the mute state and revision.
    pub fn remote_mute(&mut self, mute: bool, revision: u64) -> (r: (bool, u64))
        ensures
            old(self).wf() ==> final(self).wf(),
            revision >= old(self).revision ==> final(self).muted == mute && final(self).revision
                == (if revision == u64::MAX {
                u64::MAX as int
            } else {
                revision + 1
            }) && final(self).state == stream_state(mute),
            revision < old(self).revision ==> final(self).muted == old(self).muted
                && final(self).revision == old(self).revision && final(self).state == old(self).state,
            r == (final(self).muted, final(self).revision),
            final(self).revision >= old(self).revision,
            final(self).session == old(self).session,
            final(self).pairing == old(self).pairing,
            final(self).devices@ == old(self).devices@,
    {
        if revision >= self.revision {
            self.revision = revision.saturating_add(1);
            self.muted = mute;
            self.state = if mute {
                State::Muted
            } else {
                State::Streaming
            };
        }
        (self.muted, self.revision)
    }

    /// Drops every paired device with identifier `id`, keeping the order of the others.
    pub fn remove_device(&mut self, id: &str)
        ensures
            old(self).wf() ==> final(self).wf(),
            final(self).devices@ == old(self).devices@.filter(|d: Device| d.id@ != id@),
            final(self).state == old(self).state,
            final(self).session == old(self).session,
            final(self).muted == old(self).muted,
            final(self).revision == old(self).revision,
            final(self).pairing == old(self).pairing,
    {
        let ghost all = self.devices@;
        let ghost keep = |d: Device| d.id@ != id@;
        let mut i: usize = 0;
        let ghost mut k: int = 0;
        while i < self.devices.len()
            invariant
                0 <= k <= all.len(),
                self.devices@ == all.take(k).filter(keep) + all.skip(k),
                i == all.take(k).filter(keep).len(),
                keep == (|d: Device| d.id@ != id@),
                self.state == old(self).state,
                self.session == old(self).session,
                self.muted == old(self).muted,
                self.revision == old(self).revision,
                self.pairing == old(self).pairing,
            decreases all.len() - k,
        {
            let ghost x = all[k];
            proof {
                assert(all.take(k + 1) =~= all.take(k) + seq![x]);
                Seq::filter_distributes_over_add(all.take(k), seq![x], keep);
                reveal_with_fuel(Seq::filter, 2);
                assert(seq![x].drop_last() =~= Seq::<Device>::empty());
                assert(all.skip(k) =~= seq![x] + all.skip(k + 1));
                assert(self.devices@[i as int] == x);
            }
            if str_eq(self.devices[i].id.as_str(), id) {
                self.devices.remove(i);
                assert(seq![x].filter(keep) =~= Seq::<Device>::empty());
            } else {
                assert(seq![x].filter(keep) =~= seq![x]);
                i += 1;
            }
            proof {
                k = k + 1;
                assert(self.devices@ =~= all.take(k).filter(keep) + all.skip(k));
            }
        }
        proof {
            all.take(k).lemma_filter_len(keep);
            assert(all.skip(k).len() == 0);
            assert(all.take(k) =~= all);
            assert(self.devices@ =~= all.filter(keep));
        }
    }

    /// Ends the session of the device `id`, if it holds one; true when it did. The caller
    /// then silences the output and starts a new audio generation.
    pub fn end_session_of_device(&mut self, id: &str) -> (r: bool)
        ensures
            old(self).wf() ==> final(self).wf(),
            r == (old(self).session is Some && old(self).session->Some_0.device@ == id@),
            r ==> final(self).session is None && final(self).state == State::Idle,
            !r ==> final(self).session == old(self).session && final(self).state == old(self).state,
            final(self).muted == old(self).muted,
            final(self).revision == old(self).revision,
            final(self).pairing == old(self).pairing,
            final(self).devices@ == old(self).devices@,
    {
        let hit = match &self.session {
            Some(s) => str_eq(s.device.as_str(), id),
            None => false,
        };
        if hit {
            self.session = None;
            self.state = State::Idle;
        }
        hit
    }

    /// Counts one more exchange against the open pairing window and returns its code and
    /// issue time; refused when no window is open, it is 120 s old or it started five.
    pub fn begin_pairing_attempt(&mut self, now: u64) -> (r: Result<(String, u64), PairingError>)
        ensures
            old(self).wf() ==> final(self).wf(),
            old(self).pairing is None ==> r == Err::<(String, u64), PairingError>(
                PairingError::NotOpen,
            ),
            old(self).pairing is Some && !(elapsed(now, old(self).pairing->Some_0.created_us)
                < PAIRING_WINDOW_US && old(self).pairing->Some_0.attempts < MAX_PAIRING_ATTEMPTS)
                ==> r == Err::<(String, u64), PairingError>(PairingError::ExpiredOrLocked),
            old(self).pairing is Some && elapsed(now, old(self).pairing->Some_0.created_us)
                < PAIRING_WINDOW_US && old(self).pairing->Some_0.attempts < MAX_PAIRING_ATTEMPTS
                ==> r is Ok,
            r is Err ==> final(self).pairing == old(self).pairing,
            r is Ok ==> old(self).pairing is Some && elapsed(
                now,
                old(self).pairing->Some_0.created_us,
            ) < PAIRING_WINDOW_US && old(self).pairing->Some_0.attempts < MAX_PAIRING_ATTEMPTS
                && final(self).pairing == Some(
                PairingWindow {
                    attempts: (old(self).pairing->Some_0.attempts + 1) as u8,
                    ..old(self).pairing->Some_0
                },
            ) && r->Ok_0.0@ == old(self).pairing->Some_0.code@ && r->Ok_0.1 == old(self).pairing->Some_0.created_us,
            final(self).state == old(self).state,
            final(self).session == old(self).session,
            final(self).muted == old(self).muted,
            final(self).revision == old(self).revision,
            final(self).devices@ == old(self).devices@,
    {
        match self.pairing.take() {
            None => Err(PairingError::NotOpen),
            Some(w) => {
                if !(elapsed_us(now, w.created_us) < PAIRING_WINDOW_US && w.attempts
                    < MAX_PAIRING_ATTEMPTS) {
                    self.pairing = Some(w);
                    return Err(PairingError::ExpiredOrLocked);
                }
                let code = w.code.clone();
                let created = w.created_us;
                self.pairing = Some(PairingWindow { attempts: w.attempts + 1, ..w });
                Ok((code, created))
            },
        }
    }

    /// Records a newly paired device if the window that issued the code is still open and
    /// unexpired and the device list has room.
    pub fn admit_device(&mut self, issued: u64, now: u64, device: Device) -> (r: Result<
        (),
        PairingError,
    >)
        ensures
            old(self).wf() ==> final(self).wf(),
            !(old(self).pairing is Some && old(self).pairing->Some_0.created_us == issued
                && elapsed(now, issued) < PAIRING_WINDOW_US) ==> r == Err::<(), PairingError>(
                PairingError::ExpiredOrUsed,
            ),
            old(self).pairing is Some && old(self).pairing->Some_0.created_us == issued && elapsed(
                now,
                issued,
            ) < PAIRING_WINDOW_US && old(self).devices@.len() >= MAX_DEVICES ==> r == Err::<
                (),
                PairingError,
            >(PairingError::DeviceLimit),
            r is Ok ==> final(self).devices@ == old(self).devices@.push(device),
            r is Err ==> final(self).devices@ == old(self).devices@,
            old(self).devices@.len() <= MAX_DEVICES ==> final(self).devices@.len() <= MAX_DEVICES,
            r is Ok <==> (old(self).pairing is Some && old(self).pairing->Some_0.created_us
                == issued && elapsed(now, issued) < PAIRING_WINDOW_US && old(self).devices@.len()
                < MAX_DEVICES),
            final(self).state == old(self).state,
            final(self).session == old(self).session,
            final(self).muted == old(self).muted,
            final(self).revision == old(self).revision,
            final(self).pairing == old(self).pairing,
    {
        let open = match &self.pairing {
            Some(w) => w.created_us == issued && elapsed_us(now, issued) < PAIRING_WINDOW_US,
            None => false,
        };
        if !open {
            return Err(PairingError::ExpiredOrUsed);
        }
        if self.devices.len() >= MAX_DEVICES {
            return Err(PairingError::DeviceLimit);
        }
        self.devices.push(device);
        Ok(())
    }

    /// Takes back the device added last, when it could not be saved.
    pub fn remove_last_device(&mut self)
        ensures
            old(self).wf() ==> final(self).wf(),
            final(self).devices@ == (if old(self).devices@.len() == 0 {
                old(self).devices@
            } else {
                old(self).devices@.drop_last()
            }),
            final(self).state == old(self).state,
            final(self).session == old(self).session,
            final(self).muted == old(self).muted,
            final(self).revision == old(self).revision,
            final(self).pairing == old(self).pairing,
    {
        let _ = self.devices.pop();
    }

    /// The identifier of the paired device whose 64-digit token is `token`, compared in
    /// constant time; the first such device if several match.
    pub fn device_for_token(&self, token: &str) -> (r: Option<String>)
        ensures
            token.spec_bytes().len() != TOKEN_LEN ==> r is None,
            r is None ==> forall|i: int|
                0 <= i < self.devices@.len() ==> !(self.devices@[i].token@ == token@ && token.spec_bytes().len() == TOKEN_LEN),
            r is Some ==> exists|i: int|
                0 <= i < self.devices@.len() && self.devices@[i].token@ == token@ && token.spec_bytes().len() == TOKEN_LEN && r->Some_0@
                    == self.devices@[i].id@ && (forall|j: int|
                    0 <= j < i ==> self.devices@[j].token@ != token@),
    {
        let mut i: usize = 0;
        while i < self.devices.len()
            invariant
                i <= self.devices@.len(),
                forall|j: int|
                    0 <= j < i ==> !(self.devices@[j].token@ == token@
                        && token.spec_bytes().len() == TOKEN_LEN),
            decreases self.devices@.len() - i,
        {
            let d = &self.devices[i];
            assert(d.token@ == self.devices@[i as int].token@);
            if constant_equal(d.token.as_str(), token) && token.as_bytes().len() == TOKEN_LEN {
                let id = d.id.clone();
                assert(token.spec_bytes().len() == TOKEN_LEN);
                assert(id@ == self.devices@[i as int].id@);
                return Some(id);
            }
            i += 1;
        }
        None
    }

    /// Starts the session of an authenticated phone with a fresh random session id and audio
    /// key, unless another phone was heard from within the last five seconds. The caller
    /// silences the output, starts a new audio generation and clears the session counters.
    pub fn open_session(
        &mut self,
        now: u64,
        ip: IpAddress,
        name: String,
        device: String,
        frame: usize,
    ) -> (r: Result<(u32, [u8; 32]), SessionError>)
        ensures
            old(self).wf() ==> final(self).wf(),
            !(old(self).session is None || elapsed(now, old(self).session->Some_0.heartbeat_us)
                > HEARTBEAT_TIMEOUT_US) <==> r == Err::<(u32, [u8; 32]), SessionError>(
                SessionError::Busy,
            ),
            r is Err ==> final(self).session == old(self).session && final(self).state == old(self).state,
            r is Ok ==> 1 <= r->Ok_0.0 < u32::MAX && final(self).state == State::Connected
                && final(self).session == Some(
                Session {
                    id: r->Ok_0.0,
                    key: r->Ok_0.1,
                    ip,
                    name,
                    device,
                    frame,
                    started: false,
                    heartbeat_us: now,
                    created_us: now,
                },
            ),
            final(self).muted == old(self).muted,
            final(self).revision == old(self).revision,
            final(self).pairing == old(self).pairing,
            final(self).devices@ == old(self).devices@,
    {
        let free = match &self.session {
            None => true,
            Some(s) => elapsed_us(now, s.heartbeat_us) > HEARTBEAT_TIMEOUT_US,
        };
        if !free {
            return Err(SessionError::Busy);
        }
        let id = os_random_range(1, u32::MAX);
        let key = os_random_bytes();
        self.session = Some(
            Session {
                id,
                key,
                ip,
                name,
                device,
                frame,
                started: false,
                heartbeat_us: now,
                created_us: now,
            },
        );
        self.state = State::Connected;
        Ok((id, key))
    }

    /// Notes that the phone of session `id` was heard at `now`; false when that session is
    /// no longer the current one.
    pub fn heartbeat(&mut self, id: u32, now: u64) -> (r: bool)
        ensures
            old(self).wf() ==> final(self).wf(),
            r == (old(self).session is Some && old(self).session->Some_0.id == id),
            r ==> final(self).session == Some(
                Session { heartbeat_us: now, ..old(self).session->Some_0 },
            ),
            !r ==> final(self).session == old(self).session,
            final(self).state == old(self).state,
            final(self).muted == old(self).muted,
            final(self).revision == old(self).revision,
            final(self).pairing == old(self).pairing,
            final(self).devices@ == old(self).devices@,
    {
        match self.session.take() {
            Some(s) => {
                if s.id == id {
                    self.session = Some(Session { heartbeat_us: now, ..s });
                    true
                } else {
                    self.session = Some(s);
                    false
                }
            },
            None => false,
        }
    }

    /// The phone starts streaming: the session is marked started and shows its mute state.
    /// Returns the mute state and revision to acknowledge.
    pub fn start_stream(&mut self) -> (r: (bool, u64))
        ensures
            old(self).wf() ==> final(self).wf(),
            old(self).session is Some ==> final(self).session == Some(
                Session { started: true, ..old(self).session->Some_0 },
            ),
            old(self).session is None ==> final(self).session is None,
            final(self).state == stream_state(old(self).muted),
            r == (old(self).muted, old(self).revision),
            final(self).muted == old(self).muted,
            final(self).revision == old(self).revision,
            final(self).pairing == old(self).pairing,
            final(self).devices@ == old(self).devices@,
    {
        match self.session.take() {
            Some(s) => {
                self.session = Some(Session { started: true, ..s });
            },
            None => {},
        }
        self.state = if self.muted {
            State::Muted
        } else {
            State::Streaming
        };
        (self.muted, self.revision)
    }

    /// Ends session `id` if it is still the current one; true when it was. The caller then
    /// silences the output and starts a new audio generation.
    pub fn end_session(&mut self, id: u32) -> (r: bool)
        ensures
            old(self).wf() ==> final(self).wf(),
            r == (old(self).session is Some && old(self).session->Some_0.id == id),
            r ==> final(self).session is None && final(self).state == State::Idle,
            !r ==> final(self).session == old(self).session && final(self).state == old(self).state,
            final(self).muted == old(self).muted,
            final(self).revision == old(self).revision,
            final(self).pairing == old(self).pairing,
            final(self).devices@ == old(self).devices@,
    {
        let hit = match &self.session {
            Some(s) => s.id == id,
            None => false,
        };
        if hit {
            self.session = None;
            self.state = State::Idle;
        }
        hit
    }

    /// The session whose audio is accepted at `now`: started, and heard from within the
    /// last five seconds.
    pub fn active_stream(&self, now: u64) -> (r: Option<ActiveStream>)
        ensures
            match self.session {
                Some(s) => if s.started && elapsed(now, s.heartbeat_us) < HEARTBEAT_TIMEOUT_US {
                    r == Some(
                        ActiveStream {
                            id: s.id,
                            key: s.key,
                            ip: s.ip,
                            frame: s.frame,
                            created_us: s.created_us,
                        },
                    )
                } else {
                    r is None
                },
                None => r is None,
            },
    {
        match &self.session {
            Some(s) => {
                if s.started && elapsed_us(now, s.heartbeat_us) < HEARTBEAT_TIMEOUT_US {
                    Some(
                        ActiveStream {
                            id: s.id,
                            key: s.key,
                            ip: s.ip,
                            frame: s.frame,
                            created_us: s.created_us,
                        },
                    )
                } else {
                    None
                }
            },
            None => None,
        }
    }

    /// Shows session `id` as reconnecting while its audio has stalled.
    pub fn mark_reconnecting(&mut self, id: u32)
        ensures
            old(self).wf() ==> final(self).wf(),
            old(self).session is Some && old(self).session->Some_0.id == id ==> final(self).state
                == State::Reconnecting,
            !(old(self).session is Some && old(self).session->Some_0.id == id) ==> final(self).state == old(self).state,
            final(self).session == old(self).session,
            final(self).muted == old(self).muted,
            final(self).revision == old(self).revision,
            final(self).pairing == old(self).pairing,
            final(self).devices@ == old(self).devices@,
    {
        let hit = match &self.session {
            Some(s) => s.id == id,
            None => false,
        };
        if hit {
            self.state = State::Reconnecting;
        }
    }

    /// After a frame of session `id` reached the output: the state shows whether the PC or
    /// the phone muted it. True when the session is still current and the PC has not muted,
    /// so the output may play.
    pub fn frame_done(&mut self, id: u32, phone_muted: bool) -> (r: bool)
        ensures
            old(self).wf() ==> final(self).wf(),
            r == (old(self).session is Some && old(self).session->Some_0.id == id
                && !old(self).muted),
            old(self).session is Some && old(self).session->Some_0.id == id ==> final(self).state
                == stream_state(old(self).muted || phone_muted),
            !(old(self).session is Some && old(self).session->Some_0.id == id) ==> final(self).state == old(self).state,
            final(self).session == old(self).session,
            final(self).muted == old(self).muted,
            final(self).revision == old(self).revision,
            final(self).pairing == old(self).pairing,
            final(self).devices@ == old(self).devices@,
    {
        let active = match &self.session {
            Some(s) => s.id == id,
            None => false,
        };
        if active {
            self.state = if self.muted || phone_muted {
                State::Muted
            } else {
                State::Streaming
            };
        }
        active && !self.muted
    }
}

/// Law: forgetting a device is exact. No device with the forgotten identifier remains, every
/// remaining device was paired before, and every device with another identifier stays.
pub proof fn lemma_forget_exact(devices: Seq<Device>, id: Seq<char>)
    ensures
        ({
            let kept = devices.filter(|d: Device| d.id@ != id);
            &&& forall|i: int| 0 <= i < kept.len() ==> (#[trigger] kept[i]).id@ != id
            &&& forall|d: Device| #[trigger] kept.contains(d) ==> devices.contains(d)
            &&& forall|i: int|
                0 <= i < devices.len() && (#[trigger] devices[i]).id@ != id ==> kept.contains(
                    devices[i],
                )
        }),
{
    let keep = |d: Device| d.id@ != id;
    let kept = devices.filter(keep);
    assert forall|i: int| 0 <= i < kept.len() implies (#[trigger] kept[i]).id@ != id by {
        devices.lemma_filter_pred(keep, i);
    }
    assert forall|d: Device| #[trigger] kept.contains(d) implies devices.contains(d) by {
        devices.lemma_filter_contains_rev(keep, d);
    }
    assert forall|i: int| 0 <= i < devices.len() && (#[trigger] devices[i]).id@ != id implies kept.contains(
        devices[i],
    ) by {
        devices.lemma_filter_contains(keep, i);
    }
}

/// Law: each phone message type names the message of the same name, and no other type
/// leads to it; `ping` and `stats_client` both ask for statistics, and `stop_stream` and
/// `disconnect` both end the session.
pub proof fn lemma_session_message_names(kind: Seq<char>)
    ensures
        (session_message_of(kind) == SessionMessage::StartStream) <==> kind == "start_stream"@,
        (session_message_of(kind) == SessionMessage::Ping) <==> (kind == "ping"@ || kind
            == "stats_client"@),
        (session_message_of(kind) == SessionMessage::Mute) <==> kind == "mute"@,
        (session_message_of(kind) == SessionMessage::Unmute) <==> kind == "unmute"@,
        (session_message_of(kind) == SessionMessage::SetGain) <==> kind == "set_gain"@,
        (session_message_of(kind) == SessionMessage::SetProfile) <==> kind == "set_profile"@,
        (session_message_of(kind) == SessionMessage::Stop) <==> (kind == "stop_stream"@ || kind
            == "disconnect"@),
{
    reveal_strlit("start_stream");
    reveal_strlit("ping");
    reveal_strlit("stats_client");
    reveal_strlit("mute");
    reveal_strlit("unmute");
    reveal_strlit("set_gain");
    reveal_strlit("set_profile");
    reveal_strlit("stop_stream");
    reveal_strlit("disconnect");
    assert("ping"@ != "start_stream"@) by {
        assert("ping"@.len() != "start_stream"@.len());
    }
    assert("stats_client"@ != "start_stream"@) by {
        assert("stats_client"@[3] != "start_stream"@[3]);
    }
    assert("stats_client"@ != "ping"@) by {
        assert("stats_client"@.len() != "ping"@.len());
    }
    assert("mute"@ != "start_stream"@) by {
        assert("mute"@.len() != "start_stream"@.len());
    }
    assert("mute"@ != "ping"@) by {
        assert("mute"@[0] != "ping"@[0]);
    }
    assert("mute"@ != "stats_client"@) by {
        assert("mute"@.len() != "stats_client"@.len());
    }
    assert("unmute"@ != "start_stream"@) by {
        assert("unmute"@.len() != "start_stream"@.len());
    }
    assert("unmute"@ != "ping"@) by {
        assert("unmute"@.len() != "ping"@.len());
    }
    assert("unmute"@ != "stats_client"@) by {
        assert("unmute"@.len() != "stats_client"@.len());
    }
    assert("unmute"@ != "mute"@) by {
        assert("unmute"@.len() != "mute"@.len());
    }
    assert("set_gain"@ != "start_stream"@) by {
        assert("set_gain"@.len() != "start_stream"@.len());
    }
    assert("set_gain"@ != "ping"@) by {
        assert("set_gain"@.len() != "ping"@.len());
    }
    assert("set_gain"@ != "stats_client"@) by {
        assert("set_gain"@.len() != "stats_client"@.len());
    }
    assert("set_gain"@ != "mute"@) by {
        assert("set_gain"@.len() != "mute"@.len());
    }
    assert("set_gain"@ != "unmute"@) by {
        assert("set_gain"@.len() != "unmute"@.len());
    }
    assert("set_profile"@ != "start_stream"@) by {
        assert("set_profile"@.len() != "start_stream"@.len());
    }
    assert("set_profile"@ != "ping"@) by {
        assert("set_profile"@.len() != "ping"@.len());
    }
    assert("set_profile"@ != "stats_client"@) by {
        assert("set_profile"@.len() != "stats_client"@.len());
    }
    assert("set_profile"@ != "mute"@) by {
        assert("set_profile"@.len() != "mute"@.len());
    }
    assert("set_profile"@ != "unmute"@) by {
        assert("set_profile"@.len() != "unmute"@.len());
    }
    assert("set_profile"@ != "set_gain"@) by {
        assert("set_profile"@.len() != "set_gain"@.len());
    }
    assert("stop_stream"@ != "start_stream"@) by {
        assert("stop_stream"@.len() != "start_stream"@.len());
    }
    assert("stop_stream"@ != "ping"@) by {
        assert("stop_stream"@.len() != "ping"@.len());
    }
    assert("stop_stream"@ != "stats_client"@) by {
        assert("stop_stream"@.len() != "stats_client"@.len());
    }
    assert("stop_stream"@ != "mute"@) by {
        assert("stop_stream"@.len() != "mute"@.len());
    }
    assert("stop_stream"@ != "unmute"@) by {
        assert("stop_stream"@.len() != "unmute"@.len());
    }
    assert("stop_stream"@ != "set_gain"@) by {
        assert("stop_stream"@.len() != "set_gain"@.len());
    }
    assert("stop_stream"@ != "set_profile"@) by {
        assert("stop_stream"@[1] != "set_profile"@[1]);
    }
    assert("disconnect"@ != "start_stream"@) by {
        assert("disconnect"@.len() != "start_stream"@.len());
    }
    assert("disconnect"@ != "ping"@) by {
        assert("disconnect"@.len() != "ping"@.len());
    }
    assert("disconnect"@ != "stats_client"@) by {
        assert("disconnect"@.len() != "stats_client"@.len());
    }
    assert("disconnect"@ != "mute"@) by {
        assert("disconnect"@.len() != "mute"@.len());
    }
    assert("disconnect"@ != "unmute"@) by {
        assert("disconnect"@.len() != "unmute"@.len());
    }
    assert("disconnect"@ != "set_gain"@) by {
        assert("disconnect"@.len() != "set_gain"@.len());
    }
    assert("disconnect"@ != "set_profile"@) by {
        assert("disconnect"@.len() != "set_profile"@.len());
    }
    assert("disconnect"@ != "stop_stream"@) by {
        assert("disconnect"@.len() != "stop_stream"@.len());
    }
}

/// Law: each local request type names the command of the same name, and no other type leads
/// to it; `status`, `stats` and `pipewire-info` all report the status.
pub proof fn lemma_local_command_names(kind: Seq<char>)
    ensures
        (command_of(kind) == LocalCommand::Status) <==> (kind == "status"@ || kind == "stats"@
            || kind == "pipewire-info"@),
        (command_of(kind) == LocalCommand::Disconnect) <==> kind == "disconnect"@,
        (command_of(kind) == LocalCommand::Devices) <==> kind == "devices"@,
        (command_of(kind) == LocalCommand::Forget) <==> kind == "forget"@,
        (command_of(kind) == LocalCommand::PairCancel) <==> kind == "pair-cancel"@,
        (command_of(kind) == LocalCommand::Pair) <==> kind == "pair"@,
        (command_of(kind) == LocalCommand::Mute) <==> kind == "mute"@,
        (command_of(kind) == LocalCommand::Unmute) <==> kind == "unmute"@,
        (command_of(kind) == LocalCommand::ToggleMute) <==> kind == "toggle-mute"@,
        (command_of(kind) == LocalCommand::ConfigShow) <==> kind == "config-show"@,
        (command_of(kind) == LocalCommand::ConfigSet) <==> kind == "config-set"@,
{
    reveal_strlit("status");
    reveal_strlit("stats");
    reveal_strlit("pipewire-info");
    reveal_strlit("disconnect");
    reveal_strlit("devices");
    reveal_strlit("forget");
    reveal_strlit("pair-cancel");
    reveal_strlit("pair");
    reveal_strlit("mute");
    reveal_strlit("unmute");
    reveal_strlit("toggle-mute");
    reveal_strlit("config-show");
    reveal_strlit("config-set");
    assert("stats"@ != "status"@) by {
        assert("stats"@.len() != "status"@.len());
    }
    assert("pipewire-info"@ != "status"@) by {
        assert("pipewire-info"@.len() != "status"@.len());
    }
    assert("pipewire-info"@ != "stats"@) by {
        assert("pipewire-info"@.len() != "stats"@.len());
    }
    assert("disconnect"@ != "status"@) by {
        assert("disconnect"@.len() != "status"@.len());
    }
    assert("disconnect"@ != "stats"@) by {
        assert("disconnect"@.len() != "stats"@.len());
    }
    assert("disconnect"@ != "pipewire-info"@) by {
        assert("disconnect"@.len() != "pipewire-info"@.len());
    }
    assert("devices"@ != "status"@) by {
        assert("devices"@.len() != "status"@.len());
    }
    assert("devices"@ != "stats"@) by {
        assert("devices"@.len() != "stats"@.len());
    }
    assert("devices"@ != "pipewire-info"@) by {
        assert("devices"@.len() != "pipewire-info"@.len());
    }
    assert("devices"@ != "disconnect"@) by {
        assert("devices"@.len() != "disconnect"@.len());
    }
    assert("forget"@ != "status"@) by {
        assert("forget"@[0] != "status"@[0]);
    }
    assert("forget"@ != "stats"@) by {
        assert("forget"@.len() != "stats"@.len());
    }
    assert("forget"@ != "pipewire-info"@) by {
        assert("forget"@.len() != "pipewire-info"@.len());
    }
    assert("forget"@ != "disconnect"@) by {
        assert("forget"@.len() != "disconnect"@.len());
    }
    assert("forget"@ != "devices"@) by {
        assert("forget"@.len() != "devices"@.len());
    }
    assert("pair-cancel"@ != "status"@) by {
        assert("pair-cancel"@.len() != "status"@.len());
    }
    assert("pair-cancel"@ != "stats"@) by {
        assert("pair-cancel"@.len() != "stats"@.len());
    }
    assert("pair-cancel"@ != "pipewire-info"@) by {
        assert("pair-cancel"@.len() != "pipewire-info"@.len());
    }
    assert("pair-cancel"@ != "disconnect"@) by {
        assert("pair-cancel"@.len() != "disconnect"@.len());
    }
    assert("pair-cancel"@ != "devices"@) by {
        assert("pair-cancel"@.len() != "devices"@.len());
    }
    assert("pair-cancel"@ != "forget"@) by {
        assert("pair-cancel"@.len() != "forget"@.len());
    }
    assert("pair"@ != "status"@) by {
        assert("pair"@.len() != "status"@.len());
    }
    assert("pair"@ != "stats"@) by {
        assert("pair"@.len() != "stats"@.len());
    }
    assert("pair"@ != "pipewire-info"@) by {
        assert("pair"@.len() != "pipewire-info"@.len());
    }
    assert("pair"@ != "disconnect"@) by {
        assert("pair"@.len() != "disconnect"@.len());
    }
    assert("pair"@ != "devices"@) by {
        assert("pair"@.len() != "devices"@.len());
    }
    assert("pair"@ != "forget"@) by {
        assert("pair"@.len() != "forget"@.len());
    }
    assert("pair"@ != "pair-cancel"@) by {
        assert("pair"@.len() != "pair-cancel"@.len());
    }
    assert("mute"@ != "status"@) by {
        assert("mute"@.len() != "status"@.len());
    }
    assert("mute"@ != "stats"@) by {
        assert("mute"@.len() != "stats"@.len());
    }
    assert("mute"@ != "pipewire-info"@) by {
        assert("mute"@.len() != "pipewire-info"@.len());
    }
    assert("mute"@ != "disconnect"@) by {
        assert("mute"@.len() != "disconnect"@.len());
    }
    assert("mute"@ != "devices"@) by {
        assert("mute"@.len() != "devices"@.len());
    }
    assert("mute"@ != "forget"@) by {
        assert("mute"@.len() != "forget"@.len());
    }
    assert("mute"@ != "pair-cancel"@) by {
        assert("mute"@.len() != "pair-cancel"@.len());
    }
    assert("mute"@ != "pair"@) by {
        assert("mute"@[0] != "pair"@[0]);
    }
    assert("unmute"@ != "status"@) by {
        assert("unmute"@[0] != "status"@[0]);
    }
    assert("unmute"@ != "stats"@) by {
        assert("unmute"@.len() != "stats"@.len());
    }
    assert("unmute"@ != "pipewire-info"@) by {
        assert("unmute"@.len() != "pipewire-info"@.len());
    }
    assert("unmute"@ != "disconnect"@) by {
        assert("unmute"@.len() != "disconnect"@.len());
    }
    assert("unmute"@ != "devices"@) by {
        assert("unmute"@.len() != "devices"@.len());
    }
    assert("unmute"@ != "forget"@) by {
        assert("unmute"@[0] != "forget"@[0]);
    }
    assert("unmute"@ != "pair-cancel"@) by {
        assert("unmute"@.len() != "pair-cancel"@.len());
    }
    assert("unmute"@ != "pair"@) by {
        assert("unmute"@.len() != "pair"@.len());
    }
    assert("unmute"@ != "mute"@) by {
        assert("unmute"@.len() != "mute"@.len());
    }
    assert("toggle-mute"@ != "status"@) by {
        assert("toggle-mute"@.len() != "status"@.len());
    }
    assert("toggle-mute"@ != "stats"@) by {
        assert("toggle-mute"@.len() != "stats"@.len());
    }
    assert("toggle-mute"@ != "pipewire-info"@) by {
        assert("toggle-mute"@.len() != "pipewire-info"@.len());
    }
    assert("toggle-mute"@ != "disconnect"@) by {
        assert("toggle-mute"@.len() != "disconnect"@.len());
    }
    assert("toggle-mute"@ != "devices"@) by {
        assert("toggle-mute"@.len() != "devices"@.len());
    }
    assert("toggle-mute"@ != "forget"@) by {
        assert("toggle-mute"@.len() != "forget"@.len());
    }
    assert("toggle-mute"@ != "pair-cancel"@) by {
        assert("toggle-mute"@[0] != "pair-cancel"@[0]);
    }
    assert("toggle-mute"@ != "pair"@) by {
        assert("toggle-mute"@.len() != "pair"@.len());
    }
    assert("toggle-mute"@ != "mute"@) by {
        assert("toggle-mute"@.len() != "mute"@.len());
    }
    assert("toggle-mute"@ != "unmute"@) by {
        assert("toggle-mute"@.len() != "unmute"@.len());
    }
    assert("config-show"@ != "status"@) by {
        assert("config-show"@.len() != "status"@.len());
    }
    assert("config-show"@ != "stats"@) by {
        assert("config-show"@.len() != "stats"@.len());
    }
    assert("config-show"@ != "pipewire-info"@) by {
        assert("config-show"@.len() != "pipewire-info"@.len());
    }
    assert("config-show"@ != "disconnect"@) by {
        assert("config-show"@.len() != "disconnect"@.len());
    }
    assert("config-show"@ != "devices"@) by {
        assert("config-show"@.len() != "devices"@.len());
    }
    assert("config-show"@ != "forget"@) by {
        assert("config-show"@.len() != "forget"@.len());
    }
    assert("config-show"@ != "pair-cancel"@) by {
        assert("config-show"@[0] != "pair-cancel"@[0]);
    }
    assert("config-show"@ != "pair"@) by {
        assert("config-show"@.len() != "pair"@.len());
    }
    assert("config-show"@ != "mute"@) by {
        assert("config-show"@.len() != "mute"@.len());
    }
    assert("config-show"@ != "unmute"@) by {
        assert("config-show"@.len() != "unmute"@.len());
    }
    assert("config-show"@ != "toggle-mute"@) by {
        assert("config-show"@[0] != "toggle-mute"@[0]);
    }
    assert("config-set"@ != "status"@) by {
        assert("config-set"@.len() != "status"@.len());
    }
    assert("config-set"@ != "stats"@) by {
        assert("config-set"@.len() != "stats"@.len());
    }
    assert("config-set"@ != "pipewire-info"@) by {
        assert("config-set"@.len() != "pipewire-info"@.len());
    }
    assert("config-set"@ != "disconnect"@) by {
        assert("config-set"@[0] != "disconnect"@[0]);
    }
    assert("config-set"@ != "devices"@) by {
        assert("config-set"@.len() != "devices"@.len());
    }
    assert("config-set"@ != "forget"@) by {
        assert("config-set"@.len() != "forget"@.len());
    }
    assert("config-set"@ != "pair-cancel"@) by {
        assert("config-set"@.len() != "pair-cancel"@.len());
    }
    assert("config-set"@ != "pair"@) by {
        assert("config-set"@.len() != "pair"@.len());
    }
    assert("config-set"@ != "mute"@) by {
        assert("config-set"@.len() != "mute"@.len());
    }
    assert("config-set"@ != "unmute"@) by {
        assert("config-set"@.len() != "unmute"@.len());
    }
    assert("config-set"@ != "toggle-mute"@) by {
        assert("config-set"@.len() != "toggle-mute"@.len());
    }
    assert("config-set"@ != "config-show"@) by {
        assert("config-set"@.len() != "config-show"@.len());
    }
}

/// Law: each `config-set` key selects the setting of the same name, and no other key
/// selects it.
pub proof fn lemma_setting_names(key: Seq<char>)
    ensures
        (setting_of(key) == Some(Setting::GainDb)) <==> key == "gain-db"@,
        (setting_of(key) == Some(Setting::Profile)) <==> key == "profile"@,
        (setting_of(key) == Some(Setting::NoiseGate)) <==> key == "noise-gate"@,
        (setting_of(key) == Some(Setting::Agc)) <==> key == "agc"@,
        (setting_of(key) == Some(Setting::JitterTarget)) <==> key == "jitter-target"@,
{
    reveal_strlit("gain-db");
    reveal_strlit("profile");
    reveal_strlit("noise-gate");
    reveal_strlit("agc");
    reveal_strlit("jitter-target");
    assert("profile"@ != "gain-db"@) by {
        assert("profile"@[0] != "gain-db"@[0]);
    }
    assert("noise-gate"@ != "gain-db"@) by {
        assert("noise-gate"@.len() != "gain-db"@.len());
    }
    assert("noise-gate"@ != "profile"@) by {
        assert("noise-gate"@.len() != "profile"@.len());
    }
    assert("agc"@ != "gain-db"@) by {
        assert("agc"@.len() != "gain-db"@.len());
    }
    assert("agc"@ != "profile"@) by {
        assert("agc"@.len() != "profile"@.len());
    }
    assert("agc"@ != "noise-gate"@) by {
        assert("agc"@.len() != "noise-gate"@.len());
    }
    assert("jitter-target"@ != "gain-db"@) by {
        assert("jitter-target"@.len() != "gain-db"@.len());
    }
    assert("jitter-target"@ != "profile"@) by {
        assert("jitter-target"@.len() != "profile"@.len());
    }
    assert("jitter-target"@ != "noise-gate"@) by {
        assert("jitter-target"@.len() != "noise-gate"@.len());
    }
    assert("jitter-target"@ != "agc"@) by {
        assert("jitter-target"@.len() != "agc"@.len());
    }
}

/// Keeps the characters of a phone's name that are not control characters, at most 64.
pub fn sanitize_name(raw: &str) -> (r: String)
    ensures
        r@ == display_name(raw@),
{
    let ghost keep = |c: char| !is_control(c);
    let mut r = String::new();
    let mut count: usize = 0;
    proof {
        reveal_with_fuel(Seq::filter, 1);
        assert(raw@.take(0) =~= Seq::<char>::empty());
        assert(raw@.take(0).filter(keep) =~= Seq::<char>::empty());
    }
    for c in it: raw.chars()
        invariant
            it.seq() == raw@,
            keep == (|c: char| !is_control(c)),
            r@ == at_most(raw@.take(it.index() as int).filter(keep), MAX_NAME_CHARS as int),
            count == r@.len(),
            count <= MAX_NAME_CHARS,
    {
        let ghost before = raw@.take(it.index() as int);
        proof {
            assert(raw@.take(it.index() + 1) =~= before + seq![c]);
            Seq::filter_distributes_over_add(before, seq![c], keep);
            reveal_with_fuel(Seq::filter, 2);
            assert(seq![c].drop_last() =~= Seq::<char>::empty());
        }
        let u = c as u32;
        let control = u <= 0x1f || (0x7f <= u && u <= 0x9f);
        if control {
            assert(seq![c].filter(keep) =~= Seq::<char>::empty());
            assert(before.filter(keep) + seq![c].filter(keep) =~= before.filter(keep));
        } else {
            assert(seq![c].filter(keep) =~= seq![c]);
            if count < MAX_NAME_CHARS {
                push_char(&mut r, c);
                count += 1;
                assert(r@ =~= at_most(before.filter(keep) + seq![c], MAX_NAME_CHARS as int));
            } else {
                assert(r@ =~= at_most(before.filter(keep) + seq![c], MAX_NAME_CHARS as int));
            }
        }
    }
    assert(raw@.take(raw@.len() as int) =~= raw@);
    r
}

} // verus!
