//! A preallocated reordering buffer that releases audio frames at their playout time.
//!
//! Time is a count of microseconds on a monotonic clock chosen by the caller.
use vstd::prelude::*;
use crate::protocol::{is_newer, newer, seq_distance, Header, MAX_PAYLOAD};

verus! {

/// Number of frames the buffer can hold ahead of playout.
pub const SLOTS: usize = 512;

/// Largest clock reading accepted, in microseconds (about 146,000 years).
pub const TIME_LIMIT_US: u64 = 0x4000_0000_0000_0000;

/// Slack above the latest playout time that one frame step can add.
pub const FRAME_SLACK_US: u64 = 0x20_0000;

/// One received frame, stored inline so that buffering never allocates.
#[derive(Clone, Copy)]
pub struct Packet {
    pub header: Header,
    pub payload: [u8; MAX_PAYLOAD],
}

impl Packet {
    /// Copies `data` into a fresh packet for `header`; the rest of the payload is zero.
    pub fn new(header: Header, data: &[u8]) -> (r: Packet)
        requires
            data@.len() <= MAX_PAYLOAD,
        ensures
            r.header == header,
            r.payload@.take(data@.len() as int) == data@,
            forall|i: int| data@.len() <= i < MAX_PAYLOAD ==> r.payload@[i] == 0u8,
    {
        let mut payload = [0u8; MAX_PAYLOAD];
        let mut i: usize = 0;
        while i < data.len()
            invariant
                i <= data@.len(),
                data@.len() <= MAX_PAYLOAD,
                payload@.len() == MAX_PAYLOAD,
                forall|j: int| 0 <= j < i ==> payload@[j] == data@[j],
                forall|j: int| i <= j < MAX_PAYLOAD ==> payload@[j] == 0u8,
            decreases data@.len() - i,
        {
            payload[i] = data[i];
            i += 1;
        }
        assert(payload@.take(data@.len() as int) =~= data@);
        Packet { header, payload }
    }

    /// The payload bytes that the header announces.
    pub fn data(&self) -> (r: &[u8])
        requires
            self.header.payload_len <= MAX_PAYLOAD,
        ensures
            r@ == self.payload@.take(self.header.payload_len as int),
    {
        let s: &[u8] = self.payload.as_slice();
        let r = &s[0..self.header.payload_len as usize];
        assert(r@ =~= self.payload@.take(self.header.payload_len as int));
        r
    }
}

/// What became of a pushed packet.
#[derive(Debug, Clone, Copy, PartialEq, Eq, Structural)]
pub enum Push {
    Accepted,
    Duplicate,
    Late,
    TooFar,
}

/// What the buffer has for the output at a given time.
pub enum Due {
    /// Nothing is due yet.
    Wait,
    /// The next frame in sequence.
    Packet(Packet),
    /// The next frame never arrived; conceal this many samples.
    Missing(u16),
}

/// The abstract state of a jitter buffer.
pub struct JitterState {
    pub slots: Seq<Option<Packet>>,
    pub next: Option<u32>,
    pub due: Option<u64>,
    pub frame: u16,
    pub target_ms: u32,
    pub min: u32,
    pub max: u32,
    pub adaptive: bool,
    pub last_adjust: u64,
}

/// The buffer's slots, playout cursor and adaptive target. The jitter estimate that drives
/// adaptation is computed by the caller and handed to `retarget`.
pub struct JitterBuffer {
    slots: Vec<Option<Packet>>,
    next: Option<u32>,
    due: Option<u64>,
    frame: u16,
    pub target_ms: u32,
    min: u32,
    max: u32,
    adaptive: bool,
    last_adjust: u64,
}

/// Microseconds of audio in `frame` samples at 48 kHz, rounded down.
pub open spec fn frame_us(frame: u16) -> u64 {
    ((frame as int * 1_000_000) / 48000) as u64
}

/// The slot that holds sequence `seq`.
pub open spec fn slot_of(seq: u32) -> int {
    (seq as int) % (SLOTS as int)
}

/// The invariant every buffer keeps: a fixed number of slots, each holding only a packet
/// of its own residue that lies ahead of the playout cursor within the buffer's reach, and
/// a playout time that stays far from overflow.
pub open spec fn jitter_wf(s: JitterState) -> bool {
    &&& s.slots.len() == SLOTS
    &&& forall|i: int|
        #![trigger s.slots[i]]
        0 <= i < SLOTS && s.slots[i] is Some ==> {
            let q = s.slots[i]->Some_0.header.sequence;
            &&& slot_of(q) == i
            &&& s.next is Some
            &&& seq_distance(q, s.next->Some_0) < SLOTS
        }
    &&& s.due is Some ==> s.next is Some
    &&& s.due is Some ==> s.due->Some_0 <= TIME_LIMIT_US + s.target_ms * 1000 + FRAME_SLACK_US
}

/// An empty buffer with the given target and limits, last adapted at `now`.
pub open spec fn jitter_empty(target: u32, min: u32, max: u32, adaptive: bool, now: u64) -> JitterState {
    JitterState {
        slots: Seq::new(SLOTS as nat, |i: int| None),
        next: None,
        due: None,
        frame: 480,
        target_ms: target,
        min,
        max,
        adaptive,
        last_adjust: now,
    }
}

/// The buffer `s` with every frame dropped and the playout position forgotten; its target,
/// limits and adaptation clock are kept.
pub open spec fn jitter_cleared(s: JitterState) -> JitterState {
    JitterState { slots: Seq::new(SLOTS as nat, |i: int| None), next: None, due: None, ..s }
}

/// What `push` does with packet `p` arriving at `now`.
pub open spec fn jitter_push(s: JitterState, p: Packet, now: u64) -> (JitterState, Push) {
    let seq = p.header.sequence;
    if s.next is Some && seq != s.next->Some_0 && !is_newer(seq, s.next->Some_0) {
        (s, Push::Late)
    } else if s.next is Some && seq_distance(seq, s.next->Some_0) >= SLOTS {
        (s, Push::TooFar)
    } else {
        let s1 = if s.next is None {
            JitterState {
                next: Some(seq),
                frame: p.header.frame_samples,
                due: Some((now + s.target_ms * 1000) as u64),
                ..s
            }
        } else {
            s
        };
        if s1.slots[slot_of(seq)] is Some {
            (s1, Push::Duplicate)
        } else {
            (JitterState { slots: s1.slots.update(slot_of(seq), Some(p)), ..s1 }, Push::Accepted)
        }
    }
}

/// The target that one adaptation step moves to from `old`, toward `wanted` clamped to
/// the limits: up by at most 5 ms, down by at most 1 ms.
pub open spec fn stepped_target(old: u32, wanted: u32, min: u32, max: u32) -> u32 {
    let target = if wanted < min {
        min
    } else if wanted > max {
        max
    } else {
        wanted
    };
    if target > old {
        if target - old < 5 {
            target
        } else {
            (old + 5) as u32
        }
    } else {
        let lowered = if old >= 1 {
            (old - 1) as u32
        } else {
            0u32
        };
        if lowered > target {
            lowered
        } else {
            target
        }
    }
}

/// What `retarget` does at `now` with the wanted target `wanted`: at most once a second an
/// adaptive buffer steps its target and shifts the pending playout time by the same amount.
pub open spec fn jitter_retarget(s: JitterState, now: u64, wanted: u32) -> JitterState {
    if s.adaptive && now >= s.last_adjust + 1_000_000 {
        let old = s.target_ms;
        let new = stepped_target(old, wanted, s.min, s.max);
        let due = if new > old {
            match s.due {
                Some(t) => Some((t + (new - old) * 1000) as u64),
                None => None,
            }
        } else if new < old {
            match s.due {
                Some(t) => if t >= (old - new) * 1000 {
                    Some((t - (old - new) * 1000) as u64)
                } else {
                    None
                },
                None => None,
            }
        } else {
            s.due
        };
        JitterState { target_ms: new, due, last_adjust: now, ..s }
    } else {
        s
    }
}

/// What `pop` hands out at `now`, and the state it leaves.
pub open spec fn jitter_pop(s: JitterState, now: u64) -> (JitterState, Due) {
    match s.due {
        None => (s, Due::Wait),
        Some(due) => if now < due {
            (s, Due::Wait)
        } else {
            let seq = s.next->Some_0;
            let s1 = JitterState {
                next: Some(if seq == u32::MAX {
                    0u32
                } else {
                    (seq + 1) as u32
                }),
                due: Some((due + frame_us(s.frame)) as u64),
                ..s
            };
            match s.slots[slot_of(seq)] {
                Some(p) => (
                    JitterState {
                        slots: s1.slots.update(slot_of(seq), None),
                        frame: p.header.frame_samples,
                        ..s1
                    },
                    Due::Packet(p),
                ),
                None => (s1, Due::Missing(s.frame)),
            }
        },
    }
}

/// The packet stored for the next sequence to play, if it has arrived.
pub open spec fn jitter_peek(s: JitterState) -> Option<Packet> {
    match s.next {
        Some(n) => s.slots[slot_of(n)],
        None => None,
    }
}

impl View for JitterBuffer {
    type V = JitterState;

    closed spec fn view(&self) -> JitterState {
        JitterState {
            slots: self.slots@,
            next: self.next,
            due: self.due,
            frame: self.frame,
            target_ms: self.target_ms,
            min: self.min,
            max: self.max,
            adaptive: self.adaptive,
            last_adjust: self.last_adjust,
        }
    }
}

impl JitterBuffer {
    /// An empty buffer aiming at `target` ms of delay within `min..=max`, adapting to the
    /// measured jitter when `adaptive` is set.
    pub fn new(target: u32, min: u32, max: u32, adaptive: bool, now: u64) -> (r: Self)
        ensures
            r@ == jitter_empty(target, min, max, adaptive, now),
            jitter_wf(r@),
    {
        let mut slots: Vec<Option<Packet>> = Vec::with_capacity(SLOTS);
        let mut i: usize = 0;
        while i < SLOTS
            invariant
                i <= SLOTS,
                slots@.len() == i,
                forall|j: int| 0 <= j < i ==> slots@[j] is None,
            decreases SLOTS - i,
        {
            slots.push(None);
            i += 1;
        }
        let r = JitterBuffer {
            slots,
            next: None,
            due: None,
            frame: 480,
            target_ms: target,
            min,
            max,
            adaptive,
            last_adjust: now,
        };
        assert(r@.slots =~= jitter_empty(target, min, max, adaptive, now).slots);
        r
    }

    /// Drops every stored frame and forgets the playout position.
    pub fn reset(&mut self)
        requires
            jitter_wf(old(self)@),
        ensures
            final(self)@ == jitter_cleared(old(self)@),
            jitter_wf(final(self)@),
    {
        let mut i: usize = 0;
        while i < SLOTS
            invariant
                i <= SLOTS,
                self.slots@.len() == SLOTS,
                forall|j: int| 0 <= j < i ==> self.slots@[j] is None,
                self.frame == old(self).frame,
                self.target_ms == old(self).target_ms,
                self.min == old(self).min,
                self.max == old(self).max,
                self.adaptive == old(self).adaptive,
                self.last_adjust == old(self).last_adjust,
            decreases SLOTS - i,
        {
            self.slots.set(i, None);
            i += 1;
        }
        self.next = None;
        self.due = None;
        assert(self.slots@ =~= Seq::new(SLOTS as nat, |i: int| None::<Packet>));
    }

    /// Stores a received frame unless it is late, a duplicate or too far ahead.
    pub fn push(&mut self, p: Packet, now: u64) -> (r: Push)
        requires
            jitter_wf(old(self)@),
            now <= TIME_LIMIT_US,
        ensures
            (final(self)@, r) == jitter_push(old(self)@, p, now),
            final(self)@.target_ms == old(self)@.target_ms,
            jitter_wf(final(self)@),
    {
        let seq = p.header.sequence;
        match self.next {
            Some(n) => {
                if seq != n && !newer(seq, n) {
                    return Push::Late;
                }
                if seq.wrapping_sub(n) >= SLOTS as u32 {
                    return Push::TooFar;
                }
            },
            None => {
                self.next = Some(seq);
                self.frame = p.header.frame_samples;
                self.due = Some(now + self.target_ms as u64 * 1000);
            },
        }
        let slot = (seq % SLOTS as u32) as usize;
        if self.slots[slot].is_some() {
            return Push::Duplicate;
        }
        self.slots.set(slot, Some(p));
        Push::Accepted
    }

    /// Applies one adaptation step toward `wanted` ms, which the caller derives from its
    /// jitter estimate; does nothing unless the buffer adapts and a second has passed.
    pub fn retarget(&mut self, now: u64, wanted: u32)
        requires
            jitter_wf(old(self)@),
            old(self)@.adaptive ==> old(self)@.min <= old(self)@.max,
        ensures
            final(self)@ == jitter_retarget(old(self)@, now, wanted),
            !old(self)@.adaptive ==> final(self)@ == old(self)@,
            old(self)@.target_ms - 1 <= final(self)@.target_ms <= old(self)@.target_ms + 5,
            old(self)@.min <= old(self)@.target_ms <= old(self)@.max ==> old(self)@.min
                <= final(self)@.target_ms <= old(self)@.max,
            jitter_wf(final(self)@),
    {
        proof {
            if old(self)@.adaptive {
                lemma_retarget_gentle(old(self)@.target_ms, wanted, old(self)@.min, old(self)@.max);
            }
        }
        if self.adaptive && now >= self.last_adjust && now - self.last_adjust >= 1_000_000 {
            let target = if wanted < self.min {
                self.min
            } else if wanted > self.max {
                self.max
            } else {
                wanted
            };
            let old = self.target_ms;
            self.target_ms = if target > old {
                if target - old < 5 {
                    target
                } else {
                    old + 5
                }
            } else {
                let lowered = old.saturating_sub(1);
                if lowered > target {
                    lowered
                } else {
                    target
                }
            };
            if self.target_ms > old {
                self.due = match self.due {
                    Some(t) => Some(t + (self.target_ms - old) as u64 * 1000),
                    None => None,
                };
            } else if self.target_ms < old {
                self.due = match self.due {
                    Some(t) => t.checked_sub((old - self.target_ms) as u64 * 1000),
                    None => None,
                };
            }
            self.last_adjust = now;
        }
    }

    /// Releases the next frame in sequence once its playout time has come.
    pub fn pop(&mut self, now: u64) -> (r: Due)
        requires
            jitter_wf(old(self)@),
            now <= TIME_LIMIT_US,
        ensures
            (final(self)@, r) == jitter_pop(old(self)@, now),
            jitter_wf(final(self)@),
    {
        let due = match self.due {
            None => {
                return Due::Wait;
            },
            Some(d) => d,
        };
        if now < due {
            return Due::Wait;
        }
        let seq = match self.next {
            Some(n) => n,
            None => {
                return Due::Wait;
            },
        };
        self.next = Some(seq.wrapping_add(1));
        self.due = Some(due + self.frame as u64 * 1_000_000 / 48000);
        let slot = (seq % SLOTS as u32) as usize;
        match self.slots[slot] {
            Some(p) => {
                self.slots.set(slot, None);
                self.frame = p.header.frame_samples;
                Due::Packet(p)
            },
            None => Due::Missing(self.frame),
        }
    }

    /// The frame stored for the next sequence to play, if it has arrived.
    pub fn peek_next(&self) -> (r: Option<&Packet>)
        requires
            jitter_wf(self@),
        ensures
            match jitter_peek(self@) {
                Some(p) => r is Some && *r->Some_0 == p,
                None => r is None,
            },
    {
        match self.next {
            Some(n) => self.slots[(n % SLOTS as u32) as usize].as_ref(),
            None => None,
        }
    }
}

/// Two sequences in the same slot and less than a buffer apart are the same sequence.
proof fn lemma_same_slot_same_seq(q: u32, n: u32)
    requires
        slot_of(q) == slot_of(n),
        seq_distance(q, n) < SLOTS,
    ensures
        q == n,
{
    let d = seq_distance(q, n) as int;
    assert(d == q - n || d == q - n + 0x1_0000_0000int);
    assert((q as int) % 512 == (n as int) % 512);
    assert(d % 512 == 0) by (nonlinear_arith)
        requires
            d == q - n || d == q - n + 0x1_0000_0000int,
            (q as int) % 512 == (n as int) % 512,
    ;
}

/// Law: frames leave the buffer in sequence order: a released frame always carries the
/// sequence number the playout cursor pointed at.
pub proof fn lemma_jitter_in_order(s: JitterState, now: u64)
    requires
        jitter_wf(s),
        jitter_pop(s, now).1 is Packet,
    ensures
        (jitter_pop(s, now).1->Packet_0).header.sequence == s.next->Some_0,
{
    let n = s.next->Some_0;
    let i = slot_of(n);
    assert(s.slots[i] is Some);
    let q = s.slots[i]->Some_0.header.sequence;
    lemma_same_slot_same_seq(q, n);
}

/// Law: a frame accepted once is refused as a duplicate when the same sequence arrives again.
pub proof fn lemma_jitter_duplicate(s: JitterState, p: Packet, now: u64, q: Packet, later: u64)
    requires
        jitter_wf(s),
        jitter_push(s, p, now).1 == Push::Accepted,
        q.header.sequence == p.header.sequence,
    ensures
        jitter_push(jitter_push(s, p, now).0, q, later).1 == Push::Duplicate,
{
    let s1 = jitter_push(s, p, now).0;
    assert(s1.slots[slot_of(p.header.sequence)] == Some(p));
    if s.next is None {
        assert(s1.next == Some(p.header.sequence));
        assert(seq_distance(p.header.sequence, p.header.sequence) == 0);
    } else {
        assert(s1.next == s.next);
    }
}

/// Law: releasing a frame leaves every other stored frame in place; only the slot of the
/// sequence being played is emptied.
pub proof fn lemma_jitter_pop_keeps_others(s: JitterState, now: u64, i: int)
    requires
        jitter_wf(s),
        0 <= i < SLOTS,
        s.next is None || i != slot_of(s.next->Some_0),
    ensures
        jitter_pop(s, now).0.slots[i] == s.slots[i],
{
}

/// Law: an accepted frame is exactly what the buffer releases when playout reaches its
/// sequence, at or after its playout time.
pub proof fn lemma_jitter_delivers(s: JitterState, p: Packet, now: u64, later: u64)
    requires
        jitter_wf(s),
        jitter_push(s, p, now).1 == Push::Accepted,
        jitter_push(s, p, now).0.next == Some(p.header.sequence),
        jitter_push(s, p, now).0.due is Some,
        later >= jitter_push(s, p, now).0.due->Some_0,
    ensures
        jitter_pop(jitter_push(s, p, now).0, later).1 == Due::Packet(p),
{
}

/// Releasing a frame keeps the buffer's invariant.
proof fn lemma_pop_wf(s: JitterState, now: u64)
    requires
        jitter_wf(s),
        now <= TIME_LIMIT_US,
    ensures
        jitter_wf(jitter_pop(s, now).0),
{
}

/// The buffer after `k` releases, all asked for at time `now`.
pub open spec fn pops(s: JitterState, now: u64, k: nat) -> JitterState
    decreases k,
{
    if k == 0 {
        s
    } else {
        pops(jitter_pop(s, now).0, now, (k - 1) as nat)
    }
}

/// Law: every stored frame is played in its turn. A frame stored `k` places ahead of the
/// playout cursor is what the buffer releases after `k` other releases, once enough time
/// has passed for all of them.
pub proof fn lemma_jitter_plays_stored(s: JitterState, p: Packet, now: u64)
    requires
        jitter_wf(s),
        s.due is Some,
        s.slots[slot_of(p.header.sequence)] == Some(p),
        now <= TIME_LIMIT_US,
        s.due->Some_0 + seq_distance(p.header.sequence, s.next->Some_0) * FRAME_SLACK_US <= now,
    ensures
        jitter_pop(
            pops(s, now, seq_distance(p.header.sequence, s.next->Some_0) as nat),
            now,
        ).1 == Due::Packet(p),
    decreases seq_distance(p.header.sequence, s.next->Some_0),
{
    let n = s.next->Some_0;
    let q = p.header.sequence;
    let k = seq_distance(q, n);
    if k == 0 {
        assert(q == n);
    } else {
        let s1 = jitter_pop(s, now).0;
        lemma_pop_wf(s, now);
        assert(slot_of(q) != slot_of(n)) by {
            if slot_of(q) == slot_of(n) {
                lemma_same_slot_same_seq(q, n);
            }
        }
        assert(s1.slots[slot_of(q)] == Some(p));
        assert(frame_us(s.frame) <= FRAME_SLACK_US);
        assert(seq_distance(q, s1.next->Some_0) == k - 1);
        lemma_jitter_plays_stored(s1, p, now);
    }
}

/// Law: playout advances by one frame per release. A pop that hands out a frame, or a gap
/// to conceal, happens at or after the pending playout time, and moves that time on by
/// exactly the duration of the frame it played (its samples at 48 kHz, in whole
/// microseconds), so a further pop earlier than that waits.
pub proof fn lemma_pop_advances(s: JitterState, now: u64, later: u64)
    requires
        jitter_wf(s),
        !(jitter_pop(s, now).1 is Wait),
    ensures
        s.due is Some,
        now >= s.due->Some_0,
        jitter_pop(s, now).0.due is Some,
        jitter_pop(s, now).0.due->Some_0 == s.due->Some_0 + (s.frame as int * 1_000_000) / 48000,
        later < s.due->Some_0 + (s.frame as int * 1_000_000) / 48000 ==> jitter_pop(
            jitter_pop(s, now).0,
            later,
        ).1 is Wait,
{
    let d = (s.frame as int * 1_000_000) / 48000;
    assert(0 <= d <= 1_400_000) by (nonlinear_arith)
        requires
            d == (s.frame as int * 1_000_000) / 48000,
            0 <= s.frame <= 65535,
    ;
}

/// Law: adaptation moves gently toward the wanted delay. One step raises the target by at
/// most 5 ms or lowers it by at most 1 ms, never past the wanted delay clamped to the limits,
/// and a target within the limits stays within them.
pub proof fn lemma_retarget_gentle(old: u32, wanted: u32, min: u32, max: u32)
    requires
        min <= max,
    ensures
        ({
            let t = if wanted < min {
                min
            } else if wanted > max {
                max
            } else {
                wanted
            };
            let new = stepped_target(old, wanted, min, max);
            &&& old <= new <= old + 5 || (old - 1 <= new <= old)
            &&& (old <= new <= t) || (t <= new <= old)
            &&& min <= old <= max ==> min <= new <= max
        }),
{
}

/// Law: a reset buffer is fresh. Nothing is due at any time, nothing waits to be played,
/// the target and limits are kept, and the next frame pushed is accepted, whatever its
/// sequence number.
pub proof fn lemma_reset_fresh(s: JitterState, now: u64, p: Packet)
    ensures
        jitter_pop(jitter_cleared(s), now) == (jitter_cleared(s), Due::Wait),
        jitter_peek(jitter_cleared(s)) is None,
        jitter_push(jitter_cleared(s), p, now).1 == Push::Accepted,
        jitter_cleared(s).target_ms == s.target_ms,
        jitter_cleared(s).min == s.min && jitter_cleared(s).max == s.max,
{
}

} // verus!
