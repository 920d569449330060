//! The receive loop's decisions: which datagrams reach the jitter buffer, when the audio
//! chain restarts, what each released frame plays as, and whether the output ring takes it.
//!
//! Time is a count of microseconds on a monotonic clock chosen by the caller.
use vstd::prelude::*;
use crate::control::{elapsed, ActiveStream};
use crate::jitter::{Due, Packet};
use crate::network::IpAddress;
use crate::protocol::{
    has_flag, open, opens_to, parse_header, replay_accept, Header, ProtocolError, Replay, ENCRYPTED,
    FEC, KEEPALIVE, MUTED,
};

verus! {

/// Why a received datagram was dropped as invalid.
#[derive(Debug, Clone, Copy, PartialEq, Eq, Structural)]
pub enum RxError {
    /// No session is streaming.
    NoSession,
    /// The datagram came from another address than the session's phone.
    WrongSource,
    /// The datagram is malformed, unencrypted or failed authentication.
    Malformed(ProtocolError),
    /// The header names another session or frame size.
    WrongSession,
}

/// Whether two addresses are the same.
pub fn same_ip(a: IpAddress, b: IpAddress) -> (r: bool)
    ensures
        r == (a == b),
{
    match (a, b) {
        (IpAddress::V4(x), IpAddress::V4(y)) => {
            let e = x[0] == y[0] && x[1] == y[1] && x[2] == y[2] && x[3] == y[3];
            if e {
                assert(x@ =~= y@);
                assert(x =~= y);
            }
            e
        },
        (IpAddress::V6(x), IpAddress::V6(y)) => {
            let e = x[0] == y[0] && x[1] == y[1] && x[2] == y[2] && x[3] == y[3] && x[4] == y[4]
                && x[5] == y[5] && x[6] == y[6] && x[7] == y[7];
            if e {
                assert(x@ =~= y@);
                assert(x =~= y);
            }
            e
        },
        _ => false,
    }
}

/// Admits one datagram of the active stream: it must come from the session's phone, carry
/// its session id and frame size, and authenticate under its key; only then does the replay
/// window see its sequence. Returns the header and plaintext of a fresh datagram, or nothing
/// for a replay.
pub fn receive_datagram<'a>(
    stream: Option<ActiveStream>,
    peer: IpAddress,
    replay: &mut Replay,
    b: &'a mut [u8],
) -> (r: Result<Option<(Header, &'a [u8])>, RxError>)
    ensures
        stream is None ==> r == Err::<Option<(Header, &[u8])>, RxError>(RxError::NoSession),
        stream is Some && peer != stream->Some_0.ip ==> r == Err::<
            Option<(Header, &[u8])>,
            RxError,
        >(RxError::WrongSource),
        stream is Some && peer == stream->Some_0.ip && parse_header(old(b)@) is Err ==> r
            == Err::<Option<(Header, &[u8])>, RxError>(
            RxError::Malformed(parse_header(old(b)@)->Err_0),
        ),
        stream is Some && peer == stream->Some_0.ip && parse_header(old(b)@) is Ok && (
        parse_header(old(b)@)->Ok_0.session != stream->Some_0.id || parse_header(
            old(b)@,
        )->Ok_0.frame_samples != stream->Some_0.frame) ==> r == Err::<
            Option<(Header, &[u8])>,
            RxError,
        >(RxError::WrongSession),
        stream is Some && peer == stream->Some_0.ip && parse_header(old(b)@) is Ok && ({
            let h = parse_header(old(b)@)->Ok_0;
            h.session == stream->Some_0.id && h.frame_samples == stream->Some_0.frame
        }) ==> {
            let h = parse_header(old(b)@)->Ok_0;
            &&& !has_flag(h.flags, ENCRYPTED) ==> r == Err::<Option<(Header, &[u8])>, RxError>(
                RxError::Malformed(ProtocolError::Unencrypted),
            )
            &&& has_flag(h.flags, ENCRYPTED) && !(exists|g: Header, p: Seq<u8>|
                opens_to(stream->Some_0.key@, old(b)@, g, p)) ==> r == Err::<
                Option<(Header, &[u8])>,
                RxError,
            >(RxError::Malformed(ProtocolError::AuthenticationFailed))
        },
        r is Err ==> final(replay)@ == old(replay)@ && final(b)@ == old(b)@,
        r is Ok ==> stream is Some && peer == stream->Some_0.ip && ({
            let h = parse_header(old(b)@)->Ok_0;
            &&& parse_header(old(b)@) is Ok
            &&& h.session == stream->Some_0.id
            &&& h.frame_samples == stream->Some_0.frame
            &&& (final(replay)@, r->Ok_0 is Some) == replay_accept(old(replay)@, h.sequence)
        }),
        r matches Ok(Some((h, p))) ==> opens_to(stream->Some_0.key@, old(b)@, h, p@),
        r matches Ok(None) ==> exists|h: Header, p: Seq<u8>|
            opens_to(stream->Some_0.key@, old(b)@, h, p),
        stream is Some && (exists|h: Header, p: Seq<u8>|
            opens_to(stream->Some_0.key@, old(b)@, h, p) && peer == stream->Some_0.ip
                && h.session == stream->Some_0.id && h.frame_samples == stream->Some_0.frame)
            ==> r is Ok,
{
    let s = match stream {
        Some(s) => s,
        None => {
            return Err(RxError::NoSession);
        },
    };
    if !same_ip(peer, s.ip) {
        return Err(RxError::WrongSource);
    }
    let h = match Header::parse(b) {
        Ok(h) => h,
        Err(e) => {
            return Err(RxError::Malformed(e));
        },
    };
    if h.session != s.id || h.frame_samples as usize != s.frame {
        return Err(RxError::WrongSession);
    }
    let (h, data) = match open(&s.key, b) {
        Ok(v) => v,
        Err(e) => {
            return Err(RxError::Malformed(e));
        },
    };
    if replay.accept(h.sequence) {
        Ok(Some((h, data)))
    } else {
        Ok(None)
    }
}

/// A gap in arrivals after which the audio chain restarts cleanly, in microseconds.
pub const STALL_US: u64 = 500_000;

/// Frames concealed in a row after which the output goes silent.
pub const MAX_CONCEALED: u64 = 3;

/// Capacity of the ring between the decoder and PipeWire, in samples.
pub const RING_SAMPLES: usize = 4800;

/// Ring fill at or above which a decoded frame is dropped rather than queued, in samples.
pub const RING_HIGH_WATER: usize = 2400;

/// Ring fill that drift correction steers toward, in samples.
pub const RING_TARGET: usize = 960;

/// Most frames played in one pass, which bounds catch-up work after a scheduler stall.
pub const CATCH_UP_FRAMES: usize = 8;

/// What the receive loop remembers between passes.
pub struct Playout {
    /// The session whose audio is playing, 0 for none.
    pub current: u32,
    /// When the last fresh datagram arrived.
    pub last_packet_us: Option<u64>,
    /// Frames concealed since the last real one.
    pub misses: u64,
    /// The audio generation that samples of this session carry.
    pub epoch: u64,
}

/// What to play for one frame that the jitter buffer released.
#[derive(Debug, Clone, Copy, PartialEq, Eq, Structural)]
pub enum Frame {
    /// Decode the packet's payload into this many samples.
    Decode(usize),
    /// Play this many samples of silence; `phone_muted` when the phone sent a muted or
    /// keep-alive frame.
    Silence { samples: usize, phone_muted: bool },
    /// Conceal a lost frame of this many samples, from the next packet's redundant data when
    /// `fec` holds, else by the decoder's own concealment.
    Conceal { samples: usize, fec: bool },
}

/// The count of concealed frames and the frame to play for what the buffer released; `None`
/// when nothing is due.
pub open spec fn frame_plan(misses: u64, due: Due, next: Option<Packet>) -> (u64, Option<Frame>) {
    match due {
        Due::Wait => (misses, None),
        Due::Packet(p) => (
            0,
            Some(
                if has_flag(p.header.flags, MUTED) || has_flag(p.header.flags, KEEPALIVE) {
                    Frame::Silence { samples: p.header.frame_samples as usize, phone_muted: true }
                } else {
                    Frame::Decode(p.header.frame_samples as usize)
                },
            ),
        ),
        Due::Missing(f) => {
            let m = if misses == u64::MAX {
                misses
            } else {
                (misses + 1) as u64
            };
            (
                m,
                Some(
                    if m <= MAX_CONCEALED {
                        Frame::Conceal {
                            samples: f as usize,
                            fec: next is Some && has_flag(next->Some_0.header.flags, FEC),
                        }
                    } else {
                        Frame::Silence { samples: f as usize, phone_muted: false }
                    },
                ),
            )
        },
    }
}

impl Playout {
    /// Nothing playing yet.
    pub fn new() -> (r: Self)
        ensures
            r == (Playout { current: 0, last_packet_us: None, misses: 0, epoch: 0 }),
    {
        Playout { current: 0, last_packet_us: None, misses: 0, epoch: 0 }
    }

    /// Follows the active session `id` (0 for none). When it changed, playback starts over
    /// in audio generation `generation`, and the caller resets the jitter buffer, decoder,
    /// signal chain, drift correction and replay window; returns whether it changed.
    pub fn follow(&mut self, id: u32, generation: u64) -> (r: bool)
        ensures
            r == (id != old(self).current),
            r ==> *final(self) == (Playout {
                current: id,
                last_packet_us: None,
                misses: 0,
                epoch: generation,
            }),
            !r ==> *final(self) == *old(self),
    {
        if id != self.current {
            *self = Playout { current: id, last_packet_us: None, misses: 0, epoch: generation };
            true
        } else {
            false
        }
    }

    /// Notes a fresh datagram at `now`. Returns true when the one before it arrived more than
    /// half a second earlier: the caller then restarts the jitter buffer, decoder, signal chain
    /// and drift correction, so that stale timing does not shape the new audio.
    pub fn arrival(&mut self, now: u64) -> (r: bool)
        ensures
            r == (old(self).last_packet_us is Some && elapsed(
                now,
                old(self).last_packet_us->Some_0,
            ) > STALL_US),
            *final(self) == (Playout { last_packet_us: Some(now), ..*old(self) }),
    {
        let stalled = match self.last_packet_us {
            Some(t) => now >= t && now - t > STALL_US,
            None => false,
        };
        self.last_packet_us = Some(now);
        stalled
    }

    /// Whether the output stays silent this pass: no active session (`id` 0), or no fresh
    /// datagram within the last half second.
    pub fn idle(&self, id: u32, now: u64) -> (r: bool)
        ensures
            r == (id == 0 || self.last_packet_us is None || elapsed(now, self.last_packet_us->Some_0)
                > STALL_US),
    {
        if id == 0 {
            return true;
        }
        match self.last_packet_us {
            Some(t) => now >= t && now - t > STALL_US,
            None => true,
        }
    }

    /// What to play for what the jitter buffer released, given the packet after it (for
    /// redundant data); counts concealed frames, and a real frame resets the count.
    pub fn plan(&mut self, due: &Due, next: Option<&Packet>) -> (r: Option<Frame>)
        ensures
            (final(self).misses, r) == frame_plan(
                old(self).misses,
                *due,
                match next {
                    Some(p) => Some(*p),
                    None => None,
                },
            ),
            final(self).current == old(self).current,
            final(self).last_packet_us == old(self).last_packet_us,
            final(self).epoch == old(self).epoch,
    {
        match due {
            Due::Wait => None,
            Due::Packet(p) => {
                self.misses = 0;
                let flags = p.header.flags;
                if flags & MUTED != 0 || flags & KEEPALIVE != 0 {
                    Some(Frame::Silence { samples: p.header.frame_samples as usize, phone_muted: true })
                } else {
                    Some(Frame::Decode(p.header.frame_samples as usize))
                }
            },
            Due::Missing(f) => {
                self.misses = self.misses.saturating_add(1);
                if self.misses <= MAX_CONCEALED {
                    let fec = match next {
                        Some(p) => p.header.flags & FEC != 0,
                        None => false,
                    };
                    Some(Frame::Conceal { samples: *f as usize, fec })
                } else {
                    Some(Frame::Silence { samples: *f as usize, phone_muted: false })
                }
            },
        }
    }

    /// Whether a frame plays as silence: the PC muted, the phone muted, or too many frames
    /// were concealed in a row.
    pub fn silent(&self, pc_muted: bool, phone_muted: bool) -> (r: bool)
        ensures
            r == (pc_muted || phone_muted || self.misses > MAX_CONCEALED),
    {
        pc_muted || phone_muted || self.misses > MAX_CONCEALED
    }
}

/// Whether the active stream should show as reconnecting while no audio arrives: it has an
/// id and was created more than half a second ago.
pub fn reconnect_due(stream: Option<ActiveStream>, now: u64) -> (r: bool)
    ensures
        r == (stream is Some && stream->Some_0.id != 0 && elapsed(now, stream->Some_0.created_us)
            > STALL_US),
{
    match stream {
        Some(s) => s.id != 0 && now >= s.created_us && now - s.created_us > STALL_US,
        None => false,
    }
}

/// Samples queued in the output ring when `free` of its slots are free.
pub fn ring_occupancy(free: usize) -> (r: usize)
    requires
        free <= RING_SAMPLES,
    ensures
        r == RING_SAMPLES - free,
{
    RING_SAMPLES - free
}

/// Whether the output ring takes `n` more samples when `free` slots are free: they must fit,
/// and the ring must hold less than its high-water mark. A frame refused here is dropped and
/// counted as an overrun, so the ring never holds more than the mark plus one frame.
pub fn ring_accepts(free: usize, n: usize) -> (r: bool)
    requires
        free <= RING_SAMPLES,
    ensures
        r == (free >= n && RING_SAMPLES - free < RING_HIGH_WATER),
        r ==> RING_SAMPLES - free + n <= RING_SAMPLES,
        r ==> RING_SAMPLES - free + n < RING_HIGH_WATER + n,
{
    free >= n && RING_SAMPLES - free < RING_HIGH_WATER
}

/// Law: concealment is bounded. Once three frames in a row were concealed, every further
/// missing frame plays as silence, until a frame arrives and resets the count.
pub proof fn lemma_concealment_bounded(misses: u64, f: u16, next: Option<Packet>, p: Packet)
    requires
        misses >= MAX_CONCEALED,
    ensures
        frame_plan(misses, Due::Missing(f), next).1 == Some(
            Frame::Silence { samples: f as usize, phone_muted: false },
        ),
        frame_plan(misses, Due::Missing(f), next).0 > MAX_CONCEALED,
        frame_plan(misses, Due::Packet(p), next).0 == 0,
{
}

} // verus!
