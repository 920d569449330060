//! The audio datagram format, its replay window and control-message framing.
use vstd::prelude::*;
use crate::be::{
    be16, be32, be64, from_be16, from_be32, from_be64, lemma_be16_bytes, lemma_be16_value,
    lemma_be32_bytes, lemma_be32_value, lemma_be64_bytes, lemma_be64_value,
};
use crate::crypto::{aead_decrypt, aead_encrypt, chacha20poly1305_seal};

verus! {

/// Length of the datagram header.
pub const HEADER: usize = 40;

/// Largest datagram accepted or produced.
pub const MAX_DATAGRAM: usize = 1200;

/// Largest Opus payload carried by one datagram.
pub const MAX_PAYLOAD: usize = MAX_DATAGRAM - HEADER - 16;

/// Length of the authentication tag that follows an encrypted payload.
pub const TAG_LEN: usize = 16;

/// Largest control message body.
pub const MAX_CONTROL: usize = 16384;

/// The sender's microphone is muted.
pub const MUTED: u16 = 1;

/// The payload carries forward error correction.
pub const FEC: u16 = 2;

/// The sender restarted its sample clock.
pub const DISCONTINUITY: u16 = 4;

/// The datagram only keeps the session alive.
pub const KEEPALIVE: u16 = 8;

/// The payload is encrypted and authenticated.
pub const ENCRYPTED: u16 = 16;

/// Why a datagram or control frame was refused.
#[derive(Debug, Clone, Copy, PartialEq, Eq, Structural)]
pub enum ProtocolError {
    /// The output buffer cannot hold a header.
    ShortHeader,
    /// The datagram is shorter than a header or longer than the maximum.
    InvalidDatagramSize,
    /// The magic, version or codec bytes are wrong.
    InvalidProtocol,
    /// Unknown flag bits or nonzero reserved bytes.
    UnknownFlags,
    /// The frame size is not 240, 480 or 960 samples.
    InvalidFrame,
    /// The payload length exceeds the maximum.
    OversizePayload,
    /// An empty payload without the keepalive flag.
    EmptyAudio,
    /// The datagram length disagrees with the header.
    LengthMismatch,
    /// Sealing was asked for an unencrypted header or a payload of the wrong length.
    BadSealInput,
    /// The cipher refused to encrypt.
    EncryptFailed,
    /// An unencrypted datagram reached a receiver that requires encryption.
    Unencrypted,
    /// The authentication tag did not verify.
    AuthenticationFailed,
    /// A control message body is longer than allowed.
    ControlTooLarge,
    /// A control frame announces an empty or oversized body.
    InvalidControlLength,
}

/// The fixed header of one audio datagram.
#[derive(Debug, Clone, Copy, PartialEq, Eq, Structural)]
pub struct Header {
    pub flags: u16,
    pub session: u32,
    pub sequence: u32,
    pub sample_index: u64,
    pub sender_time_us: u64,
    pub frame_samples: u16,
    pub payload_len: u16,
}

/// Magic "LMIC", protocol version 1 and codec 1 (Opus).
pub open spec fn preamble() -> Seq<u8> {
    seq![0x4cu8, 0x4du8, 0x49u8, 0x43u8, 1u8, 1u8]
}

/// The 40 header bytes of `h`.
pub open spec fn header_bytes(h: Header) -> Seq<u8> {
    preamble() + be16(h.flags) + be32(h.session) + be32(h.sequence) + be64(h.sample_index) + be64(
        h.sender_time_us,
    ) + be16(h.frame_samples) + be16(h.payload_len) + seq![0u8, 0u8, 0u8, 0u8]
}

/// The header fields stored at their offsets in `b`.
pub open spec fn header_fields(b: Seq<u8>) -> Header {
    Header {
        flags: from_be16(b.subrange(6, 8)),
        session: from_be32(b.subrange(8, 12)),
        sequence: from_be32(b.subrange(12, 16)),
        sample_index: from_be64(b.subrange(16, 24)),
        sender_time_us: from_be64(b.subrange(24, 32)),
        frame_samples: from_be16(b.subrange(32, 34)),
        payload_len: from_be16(b.subrange(34, 36)),
    }
}

/// Whether `bit` is set in `flags`.
pub open spec fn has_flag(flags: u16, bit: u16) -> bool {
    flags & bit != 0
}

/// Whether only the five defined flag bits may be set.
pub open spec fn known_flags(flags: u16) -> bool {
    flags & !31u16 == 0
}

/// Frames are 5, 10 or 20 ms of 48 kHz mono audio.
pub open spec fn valid_frame(samples: u16) -> bool {
    samples == 240 || samples == 480 || samples == 960
}

/// Bytes of authentication tag that follow the payload.
pub open spec fn tag_len(flags: u16) -> int {
    if has_flag(flags, ENCRYPTED) {
        TAG_LEN as int
    } else {
        0
    }
}

/// Total datagram length announced by a header.
pub open spec fn datagram_len(h: Header) -> int {
    HEADER + h.payload_len + tag_len(h.flags)
}

/// A header that `parse` accepts when it arrives in a datagram of the announced length.
pub open spec fn header_valid(h: Header) -> bool {
    &&& known_flags(h.flags)
    &&& valid_frame(h.frame_samples)
    &&& h.payload_len <= MAX_PAYLOAD
    &&& (h.payload_len > 0 || has_flag(h.flags, KEEPALIVE))
}

/// What `Header::parse` decides for the datagram `b`.
pub open spec fn parse_header(b: Seq<u8>) -> Result<Header, ProtocolError> {
    if !(HEADER <= b.len() <= MAX_DATAGRAM) {
        Err(ProtocolError::InvalidDatagramSize)
    } else if b.take(6) != preamble() {
        Err(ProtocolError::InvalidProtocol)
    } else {
        let h = header_fields(b);
        if !(known_flags(h.flags) && b.subrange(36, 40) == seq![0u8, 0u8, 0u8, 0u8]) {
            Err(ProtocolError::UnknownFlags)
        } else if !valid_frame(h.frame_samples) {
            Err(ProtocolError::InvalidFrame)
        } else if h.payload_len > MAX_PAYLOAD {
            Err(ProtocolError::OversizePayload)
        } else if h.payload_len == 0 && !has_flag(h.flags, KEEPALIVE) {
            Err(ProtocolError::EmptyAudio)
        } else if b.len() != datagram_len(h) {
            Err(ProtocolError::LengthMismatch)
        } else {
            Ok(h)
        }
    }
}

fn read_be16(b: &[u8], at: usize) -> (r: u16)
    requires
        at + 2 <= b@.len(),
    ensures
        r == from_be16(b@.subrange(at as int, at + 2)),
{
    ((b[at] as u16) << 8u16) | (b[at + 1] as u16)
}

fn read_be32(b: &[u8], at: usize) -> (r: u32)
    requires
        at + 4 <= b@.len(),
    ensures
        r == from_be32(b@.subrange(at as int, at + 4)),
{
    ((b[at] as u32) << 24u32) | ((b[at + 1] as u32) << 16u32) | ((b[at + 2] as u32) << 8u32) | (b[at
        + 3] as u32)
}

fn read_be64(b: &[u8], at: usize) -> (r: u64)
    requires
        at + 8 <= b@.len(),
    ensures
        r == from_be64(b@.subrange(at as int, at + 8)),
{
    ((b[at] as u64) << 56u64) | ((b[at + 1] as u64) << 48u64) | ((b[at + 2] as u64) << 40u64) | ((b[at
        + 3] as u64) << 32u64) | ((b[at + 4] as u64) << 24u64) | ((b[at + 5] as u64) << 16u64) | ((b[at
        + 6] as u64) << 8u64) | (b[at + 7] as u64)
}

impl Header {
    /// The 40 header bytes, in wire order.
    pub fn to_bytes(&self) -> (r: [u8; 40])
        ensures
            r@ == header_bytes(*self),
    {
        let f = self.flags;
        let s = self.session;
        let q = self.sequence;
        let i = self.sample_index;
        let t = self.sender_time_us;
        let n = self.frame_samples;
        let p = self.payload_len;
        let r: [u8; 40] = [
            0x4c,
            0x4d,
            0x49,
            0x43,
            1,
            1,
            (f >> 8u16) as u8,
            f as u8,
            (s >> 24u32) as u8,
            (s >> 16u32) as u8,
            (s >> 8u32) as u8,
            s as u8,
            (q >> 24u32) as u8,
            (q >> 16u32) as u8,
            (q >> 8u32) as u8,
            q as u8,
            (i >> 56u64) as u8,
            (i >> 48u64) as u8,
            (i >> 40u64) as u8,
            (i >> 32u64) as u8,
            (i >> 24u64) as u8,
            (i >> 16u64) as u8,
            (i >> 8u64) as u8,
            i as u8,
            (t >> 56u64) as u8,
            (t >> 48u64) as u8,
            (t >> 40u64) as u8,
            (t >> 32u64) as u8,
            (t >> 24u64) as u8,
            (t >> 16u64) as u8,
            (t >> 8u64) as u8,
            t as u8,
            (n >> 8u16) as u8,
            n as u8,
            (p >> 8u16) as u8,
            p as u8,
            0,
            0,
            0,
            0,
        ];
        assert(r@ =~= header_bytes(*self));
        r
    }

    /// Writes the header into the first 40 bytes of `b`.
    pub fn encode(&self, b: &mut [u8]) -> (r: Result<(), ProtocolError>)
        ensures
            old(b)@.len() < HEADER ==> r == Err::<(), ProtocolError>(ProtocolError::ShortHeader)
                && final(b)@ == old(b)@,
            old(b)@.len() >= HEADER ==> r is Ok && final(b)@ == header_bytes(*self) + old(b)@.skip(HEADER as int),
    {
        if b.len() < HEADER {
            return Err(ProtocolError::ShortHeader);
        }
        let bytes = self.to_bytes();
        let mut i: usize = 0;
        while i < HEADER
            invariant
                0 <= i <= HEADER,
                HEADER <= old(b)@.len(),
                b@.len() == old(b)@.len(),
                bytes@ == header_bytes(*self),
                forall|j: int| 0 <= j < i ==> b@[j] == bytes@[j],
                forall|j: int| i <= j < b@.len() ==> b@[j] == old(b)@[j],
            decreases HEADER - i,
        {
            b[i] = bytes[i];
            i += 1;
        }
        assert(b@ =~= header_bytes(*self) + old(b)@.skip(HEADER as int));
        Ok(())
    }

    /// Reads and checks the header of a received datagram.
    pub fn parse(b: &[u8]) -> (r: Result<Header, ProtocolError>)
        ensures
            r == parse_header(b@),
    {
        if !(HEADER <= b.len() && b.len() <= MAX_DATAGRAM) {
            return Err(ProtocolError::InvalidDatagramSize);
        }
        if !(b[0] == 0x4c && b[1] == 0x4d && b[2] == 0x49 && b[3] == 0x43 && b[4] == 1 && b[5]
            == 1) {
            assert(b@.take(6) != preamble()) by {
                if b@.take(6) == preamble() {
                    assert(b@[0] == b@.take(6)[0]);
                    assert(b@[5] == b@.take(6)[5]);
                }
            }
            return Err(ProtocolError::InvalidProtocol);
        }
        assert(b@.take(6) =~= preamble());
        let h = Header {
            flags: read_be16(b, 6),
            session: read_be32(b, 8),
            sequence: read_be32(b, 12),
            sample_index: read_be64(b, 16),
            sender_time_us: read_be64(b, 24),
            frame_samples: read_be16(b, 32),
            payload_len: read_be16(b, 34),
        };
        assert(h == header_fields(b@));
        let reserved_zero = b[36] == 0 && b[37] == 0 && b[38] == 0 && b[39] == 0;
        assert(reserved_zero <==> b@.subrange(36, 40) == seq![0u8, 0u8, 0u8, 0u8]) by {
            if b@.subrange(36, 40) == seq![0u8, 0u8, 0u8, 0u8] {
                assert(b@[36] == b@.subrange(36, 40)[0]);
                assert(b@[37] == b@.subrange(36, 40)[1]);
                assert(b@[38] == b@.subrange(36, 40)[2]);
                assert(b@[39] == b@.subrange(36, 40)[3]);
            }
            if reserved_zero {
                assert(b@.subrange(36, 40) =~= seq![0u8, 0u8, 0u8, 0u8]);
            }
        }
        if !(h.flags & !31u16 == 0 && reserved_zero) {
            return Err(ProtocolError::UnknownFlags);
        }
        if !valid_frame_samples(h.frame_samples as usize) {
            return Err(ProtocolError::InvalidFrame);
        }
        if h.payload_len as usize > MAX_PAYLOAD {
            return Err(ProtocolError::OversizePayload);
        }
        if !(h.payload_len > 0 || h.flags & KEEPALIVE != 0) {
            return Err(ProtocolError::EmptyAudio);
        }
        let tag: usize = if h.flags & ENCRYPTED != 0 {
            TAG_LEN
        } else {
            0
        };
        if b.len() != HEADER + h.payload_len as usize + tag {
            return Err(ProtocolError::LengthMismatch);
        }
        Ok(h)
    }
}

/// Whether `n` samples make a frame the protocol carries.
pub fn valid_frame_samples(n: usize) -> (r: bool)
    ensures
        r == (n == 240 || n == 480 || n == 960),
{
    n == 240 || n == 480 || n == 960
}

/// Law: a valid header, followed by as many bytes as it announces, parses back to itself.
pub proof fn lemma_parse_encoded(h: Header, rest: Seq<u8>)
    requires
        header_valid(h),
        rest.len() == h.payload_len + tag_len(h.flags),
    ensures
        parse_header(header_bytes(h) + rest) == Ok::<Header, ProtocolError>(h),
{
    let b = header_bytes(h) + rest;
    assert(header_bytes(h).len() == 40);
    assert(b.take(6) =~= preamble());
    assert(b.subrange(6, 8) =~= be16(h.flags));
    assert(b.subrange(8, 12) =~= be32(h.session));
    assert(b.subrange(12, 16) =~= be32(h.sequence));
    assert(b.subrange(16, 24) =~= be64(h.sample_index));
    assert(b.subrange(24, 32) =~= be64(h.sender_time_us));
    assert(b.subrange(32, 34) =~= be16(h.frame_samples));
    assert(b.subrange(34, 36) =~= be16(h.payload_len));
    assert(b.subrange(36, 40) =~= seq![0u8, 0u8, 0u8, 0u8]);
    lemma_be16_value(h.flags);
    lemma_be32_value(h.session);
    lemma_be32_value(h.sequence);
    lemma_be64_value(h.sample_index);
    lemma_be64_value(h.sender_time_us);
    lemma_be16_value(h.frame_samples);
    lemma_be16_value(h.payload_len);
    assert(header_fields(b) == h);
}

/// Law: an accepted datagram begins with exactly the encoding of the header it yields,
/// so no two different byte strings carry the same header.
pub proof fn lemma_parsed_is_canonical(b: Seq<u8>)
    requires
        parse_header(b) is Ok,
    ensures
        b.take(40) == header_bytes(parse_header(b)->Ok_0),
        b.len() == datagram_len(parse_header(b)->Ok_0),
{
    let h = parse_header(b)->Ok_0;
    lemma_be16_bytes(b.subrange(6, 8));
    lemma_be32_bytes(b.subrange(8, 12));
    lemma_be32_bytes(b.subrange(12, 16));
    lemma_be64_bytes(b.subrange(16, 24));
    lemma_be64_bytes(b.subrange(24, 32));
    lemma_be16_bytes(b.subrange(32, 34));
    lemma_be16_bytes(b.subrange(34, 36));
    assert(b.take(40) =~= b.take(6) + b.subrange(6, 8) + b.subrange(8, 12) + b.subrange(12, 16)
        + b.subrange(16, 24) + b.subrange(24, 32) + b.subrange(32, 34) + b.subrange(34, 36)
        + b.subrange(36, 40));
}

/// The datagram that seals `payload` under `key` with header `h`: the header bytes, then the
/// ciphertext and tag, with every header byte authenticated.
pub open spec fn sealed(key: Seq<u8>, h: Header, payload: Seq<u8>) -> Seq<u8> {
    header_bytes(h) + chacha20poly1305_seal(key, nonce_bytes(h), header_bytes(h), payload)
}

/// What `seal` accepts: an encrypted header whose payload length matches the payload.
pub open spec fn seal_input_ok(h: Header, payload: Seq<u8>) -> bool {
    &&& has_flag(h.flags, ENCRYPTED)
    &&& payload.len() == h.payload_len
    &&& payload.len() <= MAX_PAYLOAD
}

/// Builds the encrypted datagram for `h` and `payload` at the start of `out` and returns
/// its length.
pub fn seal(key: &[u8; 32], h: &Header, payload: &[u8], out: &mut [u8; MAX_DATAGRAM]) -> (r:
    Result<usize, ProtocolError>)
    ensures
        !seal_input_ok(*h, payload@) ==> r == Err::<usize, ProtocolError>(
            ProtocolError::BadSealInput,
        ) && final(out)@ == old(out)@,
        seal_input_ok(*h, payload@) ==> r == Ok::<usize, ProtocolError>(
            (HEADER + payload@.len() + TAG_LEN) as usize,
        ),
        r is Ok ==> final(out)@.take(r->Ok_0 as int) == sealed(key@, *h, payload@),
        r is Ok ==> final(out)@.skip(r->Ok_0 as int) == old(out)@.skip(r->Ok_0 as int),
{
    if !(h.flags & ENCRYPTED != 0 && payload.len() == h.payload_len as usize && payload.len()
        <= MAX_PAYLOAD) {
        return Err(ProtocolError::BadSealInput);
    }
    let len = payload.len();
    let ghost before = out@;
    let buf: &mut [u8] = out;
    let enc = h.encode(buf);
    let mut i: usize = 0;
    while i < len
        invariant
            len == payload@.len(),
            len <= MAX_PAYLOAD,
            i <= len,
            buf@.len() == MAX_DATAGRAM,
            buf@.take(HEADER as int) == header_bytes(*h),
            forall|j: int| 0 <= j < i ==> buf@[HEADER + j] == payload@[j],
            forall|j: int| HEADER + len <= j < MAX_DATAGRAM ==> buf@[j] == before[j],
        decreases len - i,
    {
        buf[HEADER + i] = payload[i];
        i += 1;
    }
    let ghost filled = buf@;
    assert(filled.subrange(HEADER as int, HEADER + len) =~= payload@);
    let (aad, rest) = buf.split_at_mut(HEADER);
    let (msg, tail) = rest.split_at_mut(len);
    let n = nonce(h);
    let ghost plain = msg@;
    let ghost head = aad@;
    assert(plain =~= payload@);
    assert(head =~= header_bytes(*h));
    let tag = match aead_encrypt(key, &n, aad, msg) {
        Ok(t) => t,
        Err(_) => {
            return Err(ProtocolError::EncryptFailed);
        },
    };
    let ghost cipher = msg@;
    assert(cipher + tag@ == chacha20poly1305_seal(key@, nonce_bytes(*h), header_bytes(*h), payload@));
    let mut k: usize = 0;
    while k < TAG_LEN
        invariant
            k <= TAG_LEN,
            tail@.len() == MAX_DATAGRAM - HEADER - len,
            tail@.len() >= TAG_LEN,
            forall|j: int| 0 <= j < k ==> tail@[j] == tag@[j],
            forall|j: int| k <= j < tail@.len() ==> tail@[j] == filled[HEADER + len + j],
        decreases TAG_LEN - k,
    {
        tail[k] = tag[k];
        k += 1;
    }
    let ghost last = tail@;
    proof {
        let total = HEADER + len + TAG_LEN;
        assert(out@ == head + cipher + last);
        assert(out@.take(total as int) =~= sealed(key@, *h, payload@));
        assert(out@.skip(total as int) =~= before.skip(total as int));
    }
    Ok(HEADER + len + TAG_LEN)
}

/// Whether the datagram `b` carries header `h` and, under `key`, plaintext `p`.
pub open spec fn opens_to(key: Seq<u8>, b: Seq<u8>, h: Header, p: Seq<u8>) -> bool {
    &&& parse_header(b) == Ok::<Header, ProtocolError>(h)
    &&& has_flag(h.flags, ENCRYPTED)
    &&& chacha20poly1305_seal(key, nonce_bytes(h), b.take(HEADER as int), p) == b.skip(
        HEADER as int,
    )
}

/// Checks, authenticates and decrypts a received datagram in place; returns its header and
/// the plaintext payload.
pub fn open<'a>(key: &[u8; 32], b: &'a mut [u8]) -> (r: Result<(Header, &'a [u8]), ProtocolError>)
    ensures
        parse_header(old(b)@) is Err ==> r == Err::<(Header, &[u8]), ProtocolError>(
            parse_header(old(b)@)->Err_0,
        ),
        parse_header(old(b)@) is Ok && !has_flag(parse_header(old(b)@)->Ok_0.flags, ENCRYPTED)
            ==> r == Err::<(Header, &[u8]), ProtocolError>(ProtocolError::Unencrypted),
        r is Err ==> final(b)@ == old(b)@,
        r is Err && parse_header(old(b)@) is Ok && has_flag(
            parse_header(old(b)@)->Ok_0.flags,
            ENCRYPTED,
        ) ==> r == Err::<(Header, &[u8]), ProtocolError>(ProtocolError::AuthenticationFailed),
        r is Ok ==> opens_to(key@, old(b)@, r->Ok_0.0, r->Ok_0.1@),
        r is Ok ==> final(b)@ == old(b)@.take(HEADER as int) + r->Ok_0.1@ + old(b)@.skip(
            HEADER + r->Ok_0.1@.len(),
        ),
        forall|h: Header, p: Seq<u8>|
            opens_to(key@, old(b)@, h, p) ==> r is Ok && r->Ok_0.0 == h && r->Ok_0.1@ == p,
{
    let h = match Header::parse(b) {
        Ok(h) => h,
        Err(e) => {
            return Err(e);
        },
    };
    if h.flags & ENCRYPTED == 0 {
        return Err(ProtocolError::Unencrypted);
    }
    let ghost before = b@;
    let len = h.payload_len as usize;
    let (aad, rest) = b.split_at_mut(HEADER);
    let (msg, tail) = rest.split_at_mut(len);
    let mut tag = [0u8; 16];
    let mut k: usize = 0;
    while k < TAG_LEN
        invariant
            k <= TAG_LEN,
            tail@.len() == TAG_LEN,
            forall|j: int| 0 <= j < k ==> tag@[j] == tail@[j],
        decreases TAG_LEN - k,
    {
        tag[k] = tail[k];
        k += 1;
    }
    assert(tag@ =~= tail@);
    let n = nonce(&h);
    proof {
        assert(before.skip(HEADER as int) =~= msg@ + tag@);
        assert(before.take(HEADER as int) =~= aad@);
    }
    let ghost head = aad@;
    let ghost last = tail@;
    match aead_decrypt(key, &n, aad, msg, &tag) {
        Ok(()) => {},
        Err(_) => {
            return Err(ProtocolError::AuthenticationFailed);
        },
    }
    let ghost plain = msg@;
    assert(b@ == head + plain + last);
    let ghost whole = b@;
    let shared: &'a [u8] = b;
    assert(shared@ == whole);
    assert(HEADER + len <= shared@.len());
    let payload = &shared[HEADER..HEADER + len];
    assert(payload@ =~= plain);
    assert(shared@ =~= before.take(HEADER as int) + plain + before.skip(HEADER + len));
    Ok((h, payload))
}

/// Law: a datagram sealed for a valid encrypted header opens, under the same key, to that
/// header and the payload that was sealed.
#[verifier::spinoff_prover]
pub proof fn lemma_sealed_opens(key: Seq<u8>, h: Header, payload: Seq<u8>)
    requires
        header_valid(h),
        seal_input_ok(h, payload),
        sealed(key, h, payload).len() == HEADER + payload.len() + TAG_LEN,
    ensures
        opens_to(key, sealed(key, h, payload), h, payload),
{
    let c = chacha20poly1305_seal(key, nonce_bytes(h), header_bytes(h), payload);
    let b = sealed(key, h, payload);
    assert(b == header_bytes(h) + c);
    assert(c.len() == h.payload_len + tag_len(h.flags));
    lemma_parse_encoded(h, c);
    assert(b.take(HEADER as int) =~= header_bytes(h));
    assert(b.skip(HEADER as int) =~= c);
}

/// The distance from `b` forward to `a` in 32-bit wrapping sequence space.
pub open spec fn seq_distance(a: u32, b: u32) -> u32 {
    if a >= b {
        (a - b) as u32
    } else {
        (a - b + 0x1_0000_0000int) as u32
    }
}

/// `a` lies less than half the sequence space ahead of `b`.
pub open spec fn is_newer(a: u32, b: u32) -> bool {
    0 < seq_distance(a, b) < 0x8000_0000u32
}

/// Whether sequence `a` follows sequence `b`, with wrap-around.
pub fn newer(a: u32, b: u32) -> (r: bool)
    ensures
        r == is_newer(a, b),
{
    let d = a.wrapping_sub(b);
    d != 0 && d < 0x8000_0000u32
}

/// Law: of two distinct sequence numbers at most one is newer than the other, and none
/// is newer than itself.
pub proof fn lemma_newer_asymmetric(a: u32, b: u32)
    ensures
        !(is_newer(a, b) && is_newer(b, a)),
        !is_newer(a, a),
{
}

/// The AEAD nonce of a datagram: session, sequence, then four zero bytes.
pub open spec fn nonce_bytes(h: Header) -> Seq<u8> {
    be32(h.session) + be32(h.sequence) + seq![0u8, 0u8, 0u8, 0u8]
}

/// The 96-bit nonce that seals the datagram with header `h`.
pub fn nonce(h: &Header) -> (r: [u8; 12])
    ensures
        r@ == nonce_bytes(*h),
{
    let s = h.session;
    let q = h.sequence;
    let r: [u8; 12] = [
        (s >> 24u32) as u8,
        (s >> 16u32) as u8,
        (s >> 8u32) as u8,
        s as u8,
        (q >> 24u32) as u8,
        (q >> 16u32) as u8,
        (q >> 8u32) as u8,
        q as u8,
        0,
        0,
        0,
        0,
    ];
    assert(r@ =~= nonce_bytes(*h));
    r
}

/// The state of a 64-packet anti-replay window: the highest sequence seen, and a bitmap
/// whose bit `d` records sequence `highest - d`.
pub struct Replay {
    highest: Option<u32>,
    bitmap: u64,
}

/// What one `Replay::accept` call does to the window `w` for sequence `seq`: the new
/// window and whether the datagram is fresh.
pub open spec fn replay_accept(w: (Option<u32>, u64), seq: u32) -> ((Option<u32>, u64), bool) {
    match w.0 {
        None => ((Some(seq), 1u64), true),
        Some(h) => if is_newer(seq, h) {
            let d = seq_distance(seq, h);
            ((Some(seq), if d >= 64 {
                1u64
            } else {
                (w.1 << d) | 1u64
            }), true)
        } else {
            let d = seq_distance(h, seq);
            if d >= 64 || w.1 & (1u64 << d) != 0 {
                (w, false)
            } else {
                ((w.0, w.1 | (1u64 << d)), true)
            }
        },
    }
}

impl View for Replay {
    type V = (Option<u32>, u64);

    closed spec fn view(&self) -> (Option<u32>, u64) {
        (self.highest, self.bitmap)
    }
}

impl Default for Replay {
    fn default() -> (r: Self)
        ensures
            r@ == (None::<u32>, 0u64),
    {
        Replay { highest: None, bitmap: 0 }
    }
}

impl Replay {
    /// Accepts `seq` once: true for a fresh sequence in or ahead of the window, false for a
    /// repeat or one that fell behind the window.
    pub fn accept(&mut self, seq: u32) -> (r: bool)
        ensures
            (final(self)@, r) == replay_accept(old(self)@, seq),
    {
        match self.highest {
            None => {
                self.highest = Some(seq);
                self.bitmap = 1;
                true
            },
            Some(h) => {
                if newer(seq, h) {
                    let d = seq.wrapping_sub(h);
                    self.bitmap = if d >= 64 {
                        1
                    } else {
                        (self.bitmap << d) | 1
                    };
                    self.highest = Some(seq);
                    true
                } else {
                    let d = h.wrapping_sub(seq);
                    if d >= 64 || self.bitmap & (1u64 << d) != 0 {
                        false
                    } else {
                        self.bitmap = self.bitmap | (1u64 << d);
                        true
                    }
                }
            },
        }
    }
}

/// Law: a sequence number is never accepted twice in a row, whatever the window held.
pub proof fn lemma_replay_repeat_rejected(w: (Option<u32>, u64), seq: u32)
    ensures
        !replay_accept(replay_accept(w, seq).0, seq).1,
{
    assert(seq_distance(seq, seq) == 0);
    match w.0 {
        None => {
            assert(1u64 & (1u64 << 0u32) != 0) by (bit_vector);
        },
        Some(h) => {
            if is_newer(seq, h) {
                let d = seq_distance(seq, h);
                let old_b = w.1;
                if d < 64 {
                    assert(((old_b << d) | 1u64) & (1u64 << 0u32) != 0) by (bit_vector);
                } else {
                    assert(1u64 & (1u64 << 0u32) != 0) by (bit_vector);
                }
            } else {
                let d = seq_distance(h, seq);
                let old_b = w.1;
                if !(d >= 64 || old_b & (1u64 << d) != 0) {
                    assert((old_b | (1u64 << d)) & (1u64 << d) != 0) by (bit_vector)
                        requires
                            d < 64,
                    ;
                }
            }
        },
    }
}

/// Law: once the window refuses a sequence number it keeps refusing it, whatever arrives
/// next, as long as the next sequence is less than half the sequence space ahead of it.
pub proof fn lemma_replay_refusal_persists(w: (Option<u32>, u64), s: u32, t: u32)
    requires
        !replay_accept(w, s).1,
        seq_distance(t, s) < 0x8000_0000u32,
    ensures
        !replay_accept(replay_accept(w, t).0, s).1,
{
    let h = w.0->Some_0;
    let b = w.1;
    let dh = seq_distance(h, s);
    assert(!is_newer(s, h));
    if is_newer(t, h) {
        let e = seq_distance(t, h);
        assert(seq_distance(t, s) == e + dh);
        assert(!is_newer(s, t));
        if e + dh < 64 {
            let sh = (dh + e) as u32;
            assert(((b << e) | 1u64) & (1u64 << sh) != 0) by (bit_vector)
                requires
                    dh < 64,
                    e < 64,
                    sh == dh + e,
                    sh < 64,
                    b & (1u64 << dh) != 0,
            ;
        }
    } else {
        let e = seq_distance(h, t);
        if !(e >= 64 || b & (1u64 << e) != 0) && dh < 64 {
            assert((b | (1u64 << e)) & (1u64 << dh) != 0) by (bit_vector)
                requires
                    dh < 64,
                    e < 64,
                    b & (1u64 << dh) != 0,
            ;
        }
    }
}

/// Whether two sequence numbers lie within a quarter of the sequence space of each other, in
/// either direction.
pub open spec fn seq_near(a: u32, b: u32) -> bool {
    seq_distance(a, b) <= 0x4000_0000u32 || seq_distance(b, a) <= 0x4000_0000u32
}

/// Whether the window remembers `s` as seen: its highest number is `s` or lies at most a
/// quarter of the sequence space ahead of it, and when `s` is one of the last 64 numbers
/// its bit is set. A remembered number is refused.
pub open spec fn replay_remembers(w: (Option<u32>, u64), s: u32) -> bool {
    match w.0 {
        None => false,
        Some(h) => {
            let b = seq_distance(h, s);
            &&& b <= 0x4000_0000u32
            &&& b < 64 ==> w.1 & (1u64 << b) != 0
        },
    }
}

/// The window after accepting each number of `seqs` in turn.
pub open spec fn replay_run(w: (Option<u32>, u64), seqs: Seq<u32>) -> (Option<u32>, u64)
    decreases seqs.len(),
{
    if seqs.len() == 0 {
        w
    } else {
        replay_run(replay_accept(w, seqs[0]).0, seqs.skip(1))
    }
}

/// A number the window accepts is remembered afterwards.
pub proof fn lemma_replay_accept_remembers(w: (Option<u32>, u64), s: u32)
    requires
        replay_accept(w, s).1,
    ensures
        replay_remembers(replay_accept(w, s).0, s),
{
    assert(seq_distance(s, s) == 0);
    match w.0 {
        None => {
            assert(1u64 & (1u64 << 0u32) != 0) by (bit_vector);
        },
        Some(h) => {
            let b = w.1;
            if is_newer(s, h) {
                let d = seq_distance(s, h);
                assert(1u64 & (1u64 << 0u32) != 0) by (bit_vector);
                assert(((b << d) | 1u64) & (1u64 << 0u32) != 0) by (bit_vector);
            } else {
                let d = seq_distance(h, s);
                assert((b | (1u64 << d)) & (1u64 << d) != 0) by (bit_vector)
                    requires
                        d < 64,
                ;
            }
        },
    }
}

/// A remembered number is refused.
pub proof fn lemma_replay_remembered_refused(w: (Option<u32>, u64), s: u32)
    requires
        replay_remembers(w, s),
    ensures
        !replay_accept(w, s).1,
{
    let h = w.0->Some_0;
    assert(!is_newer(s, h));
}

/// A remembered number stays remembered when a number near it arrives, older or newer.
pub proof fn lemma_replay_remembers_kept(w: (Option<u32>, u64), s: u32, t: u32)
    requires
        replay_remembers(w, s),
        seq_near(t, s),
    ensures
        replay_remembers(replay_accept(w, t).0, s),
{
    let h = w.0->Some_0;
    let bm = w.1;
    let b = seq_distance(h, s);
    if is_newer(t, h) {
        let e = seq_distance(t, h);
        assert(seq_distance(t, s) == e + b);
        if e < 64 && e + b < 64 {
            let sh = (b + e) as u32;
            assert(((bm << e) | 1u64) & (1u64 << sh) != 0) by (bit_vector)
                requires
                    b < 64,
                    e < 64,
                    sh == b + e,
                    sh < 64,
                    bm & (1u64 << b) != 0,
            ;
        }
    } else {
        let e = seq_distance(h, t);
        if !(e >= 64 || bm & (1u64 << e) != 0) && b < 64 {
            assert((bm | (1u64 << e)) & (1u64 << b) != 0) by (bit_vector)
                requires
                    b < 64,
                    e < 64,
                    bm & (1u64 << b) != 0,
            ;
        }
    }
}

proof fn lemma_replay_run_remembers(w: (Option<u32>, u64), s: u32, seqs: Seq<u32>)
    requires
        replay_remembers(w, s),
        forall|i: int| 0 <= i < seqs.len() ==> seq_near(#[trigger] seqs[i], s),
    ensures
        replay_remembers(replay_run(w, seqs), s),
    decreases seqs.len(),
{
    if seqs.len() > 0 {
        lemma_replay_remembers_kept(w, s, seqs[0]);
        let rest = seqs.skip(1);
        assert forall|i: int| 0 <= i < rest.len() implies seq_near(#[trigger] rest[i], s) by {
            assert(rest[i] == seqs[i + 1]);
        }
        lemma_replay_run_remembers(replay_accept(w, seqs[0]).0, s, rest);
    }
}

/// Law: a sequence number once accepted is never accepted again, whatever numbers arrive in
/// between, older or newer, as long as each lies within a quarter of the sequence space of
/// it (senders stop long before their sequence numbers wrap).
pub proof fn lemma_replay_never_twice(w: (Option<u32>, u64), s: u32, between: Seq<u32>)
    requires
        replay_accept(w, s).1,
        forall|i: int| 0 <= i < between.len() ==> seq_near(#[trigger] between[i], s),
    ensures
        !replay_accept(replay_run(replay_accept(w, s).0, between), s).1,
{
    lemma_replay_accept_remembers(w, s);
    lemma_replay_run_remembers(replay_accept(w, s).0, s, between);
    lemma_replay_remembered_refused(replay_run(replay_accept(w, s).0, between), s);
}

/// The 4-byte big-endian length prefix followed by `body`.
pub open spec fn framed(body: Seq<u8>) -> Seq<u8> {
    be32(body.len() as u32) + body
}

/// Frames a control message body: a 4-byte big-endian length, then the body.
pub fn encode_frame(body: &[u8]) -> (r: Result<Vec<u8>, ProtocolError>)
    ensures
        body@.len() <= MAX_CONTROL ==> r is Ok && r->Ok_0@ == framed(body@),
        body@.len() > MAX_CONTROL ==> r == Err::<Vec<u8>, ProtocolError>(
            ProtocolError::ControlTooLarge,
        ),
{
    if body.len() > MAX_CONTROL {
        return Err(ProtocolError::ControlTooLarge);
    }
    let n = body.len() as u32;
    let mut out: Vec<u8> = Vec::with_capacity(body.len() + 4);
    out.push((n >> 24u32) as u8);
    out.push((n >> 16u32) as u8);
    out.push((n >> 8u32) as u8);
    out.push(n as u8);
    let mut i: usize = 0;
    while i < body.len()
        invariant
            i <= body@.len(),
            body@.len() <= MAX_CONTROL,
            n == body@.len(),
            out@ == be32(n) + body@.take(i as int),
        decreases body@.len() - i,
    {
        out.push(body[i]);
        i += 1;
        assert(out@ =~= be32(n) + body@.take(i as int));
    }
    assert(body@.take(body@.len() as int) =~= body@);
    Ok(out)
}

/// What the 4-byte prefix of a control frame announces: a body length from 1 to the
/// control maximum, or an error.
pub open spec fn frame_length_of(prefix: Seq<u8>) -> Result<usize, ProtocolError> {
    let n = from_be32(prefix);
    if n == 0 || n > MAX_CONTROL {
        Err(ProtocolError::InvalidControlLength)
    } else {
        Ok(n as usize)
    }
}

/// Reads the body length that a control frame announces, refusing empty or oversized bodies.
pub fn frame_length(prefix: &[u8; 4]) -> (r: Result<usize, ProtocolError>)
    ensures
        r == frame_length_of(prefix@),
{
    let n = ((prefix[0] as u32) << 24u32) | ((prefix[1] as u32) << 16u32) | ((prefix[2] as u32)
        << 8u32) | (prefix[3] as u32);
    assert(n == from_be32(prefix@));
    if n == 0 || n as usize > MAX_CONTROL {
        Err(ProtocolError::InvalidControlLength)
    } else {
        Ok(n as usize)
    }
}

/// Law: the prefix that `encode_frame` writes announces the body's length, for every
/// body the reader accepts.
pub proof fn lemma_frame_length_roundtrip(body: Seq<u8>)
    requires
        1 <= body.len() <= MAX_CONTROL,
    ensures
        frame_length_of(framed(body).take(4)) == Ok::<usize, ProtocolError>(body.len() as usize),
{
    assert(framed(body).take(4) =~= be32(body.len() as u32));
    lemma_be32_value(body.len() as u32);
}

} // verus!
