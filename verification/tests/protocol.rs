use linmic::protocol::{
    encode_frame, frame_length, newer, nonce, open, seal, Header, ProtocolError, Replay,
    ENCRYPTED, KEEPALIVE, MAX_DATAGRAM,
};

fn h() -> Header {
    Header {
        flags: ENCRYPTED,
        session: 123,
        sequence: 0,
        sample_index: 0,
        sender_time_us: 9,
        frame_samples: 480,
        payload_len: 3,
    }
}

#[test]
fn roundtrip_and_auth() {
    let mut b = [0u8; 1200];
    let len = seal(&[7; 32], &h(), b"abc", &mut b).unwrap();
    assert_eq!(&b[..6], b"LMIC\x01\x01");
    let orig = b;
    assert_eq!(open(&[7; 32], &mut b[..len]).unwrap().1, b"abc");
    b = orig;
    b[24] ^= 1;
    assert!(open(&[7; 32], &mut b[..len]).is_err());
    assert!(Header::parse(&b[..len - 1]).is_err());
}

#[test]
fn hostile() {
    for n in 0..1300 {
        assert!(Header::parse(&vec![0; n]).is_err())
    }
    let mut b = [0u8; 1200];
    let n = seal(&[0; 32], &h(), b"abc", &mut b).unwrap();
    b[4] = 2;
    assert!(Header::parse(&b[..n]).is_err());
}

#[test]
fn replay_wrap() {
    let mut r = Replay::default();
    assert!(r.accept(u32::MAX - 1));
    assert!(r.accept(0));
    assert!(r.accept(u32::MAX));
    assert!(!r.accept(0));
    assert!(newer(0, u32::MAX));
    assert!(!newer(u32::MAX, 0));
}

#[test]
fn bounded_json() {
    assert!(frame_length(&u32::MAX.to_be_bytes()).is_err());
}

#[test]
fn header_bytes_are_big_endian_at_their_offsets() {
    let hd = Header {
        flags: 0x0102,
        session: 0x0304_0506,
        sequence: 0x0708_090a,
        sample_index: 0x0b0c_0d0e_0f10_1112,
        sender_time_us: 0x1314_1516_1718_191a,
        frame_samples: 960,
        payload_len: 0x1b1c,
    };
    let b = hd.to_bytes();
    assert_eq!(
        b.to_vec(),
        vec![
            0x4c, 0x4d, 0x49, 0x43, 1, 1, 1, 2, 3, 4, 5, 6, 7, 8, 9, 10, 11, 12, 13, 14, 15, 16, 17,
            18, 19, 20, 21, 22, 23, 24, 25, 26, 0x03, 0xc0, 0x1b, 0x1c, 0, 0, 0, 0
        ]
    );
    let mut out = [0xffu8; 50];
    hd.encode(&mut out).unwrap();
    assert_eq!(&out[..40], &b[..]);
    assert_eq!(&out[40..], &[0xff; 10]);
    let mut short = [0u8; 39];
    assert_eq!(hd.encode(&mut short), Err(ProtocolError::ShortHeader));
    assert_eq!(short, [0u8; 39]);
}

#[test]
fn encoded_header_parses_back() {
    let hd = Header {
        flags: KEEPALIVE,
        session: 77,
        sequence: 4_000_000_000,
        sample_index: 123_456_789,
        sender_time_us: 42,
        frame_samples: 240,
        payload_len: 0,
    };
    let b = hd.to_bytes();
    assert_eq!(Header::parse(&b), Ok(hd));
}

#[test]
fn parse_reports_each_refusal() {
    let good = |payload_len: u16, flags: u16| Header {
        flags,
        session: 1,
        sequence: 2,
        sample_index: 3,
        sender_time_us: 4,
        frame_samples: 480,
        payload_len,
    };
    let datagram = |hd: Header, extra: usize| {
        let mut v = hd.to_bytes().to_vec();
        v.extend(std::iter::repeat(0u8).take(extra));
        v
    };
    assert_eq!(Header::parse(&[0; 39]), Err(ProtocolError::InvalidDatagramSize));
    assert_eq!(Header::parse(&[0; 1201]), Err(ProtocolError::InvalidDatagramSize));
    let mut v = datagram(good(2, 0), 2);
    v[0] = b'X';
    assert_eq!(Header::parse(&v), Err(ProtocolError::InvalidProtocol));
    assert_eq!(Header::parse(&datagram(good(2, 32), 2)), Err(ProtocolError::UnknownFlags));
    let mut v = datagram(good(2, 0), 2);
    v[39] = 1;
    assert_eq!(Header::parse(&v), Err(ProtocolError::UnknownFlags));
    let mut bad_frame = good(2, 0);
    bad_frame.frame_samples = 481;
    assert_eq!(Header::parse(&datagram(bad_frame, 2)), Err(ProtocolError::InvalidFrame));
    assert_eq!(
        Header::parse(&datagram(good(1145, 0), 1145)),
        Err(ProtocolError::OversizePayload)
    );
    assert_eq!(Header::parse(&datagram(good(0, 0), 0)), Err(ProtocolError::EmptyAudio));
    assert_eq!(Header::parse(&datagram(good(2, 0), 3)), Err(ProtocolError::LengthMismatch));
    assert_eq!(
        Header::parse(&datagram(good(2, ENCRYPTED), 2)),
        Err(ProtocolError::LengthMismatch)
    );
    assert!(Header::parse(&datagram(good(2, ENCRYPTED), 18)).is_ok());
}

#[test]
fn nonce_is_session_sequence_then_zeros() {
    let mut hd = h();
    hd.session = 0x0102_0304;
    hd.sequence = 0xa0b0_c0d0;
    assert_eq!(nonce(&hd), [1, 2, 3, 4, 0xa0, 0xb0, 0xc0, 0xd0, 0, 0, 0, 0]);
}

#[test]
fn seal_checks_its_input_and_leaves_the_rest() {
    let mut out = [9u8; MAX_DATAGRAM];
    let mut plain = h();
    plain.flags = 0;
    assert_eq!(seal(&[1; 32], &plain, b"abc", &mut out), Err(ProtocolError::BadSealInput));
    assert_eq!(seal(&[1; 32], &h(), b"ab", &mut out), Err(ProtocolError::BadSealInput));
    assert_eq!(out, [9u8; MAX_DATAGRAM]);
    let n = seal(&[1; 32], &h(), b"abc", &mut out).unwrap();
    assert_eq!(n, 40 + 3 + 16);
    assert_ne!(&out[40..43], b"abc");
    assert!(out[n..].iter().all(|&x| x == 9));
}

#[test]
fn open_refuses_unencrypted_and_wrong_keys() {
    let mut plain = h();
    plain.flags = 0;
    let mut v = plain.to_bytes().to_vec();
    v.extend_from_slice(b"abc");
    assert_eq!(open(&[1; 32], &mut v).unwrap_err(), ProtocolError::Unencrypted);
    let mut b = [0u8; 1200];
    let n = seal(&[1; 32], &h(), b"abc", &mut b).unwrap();
    let before = b;
    assert_eq!(open(&[2; 32], &mut b[..n]).unwrap_err(), ProtocolError::AuthenticationFailed);
    assert_eq!(b, before);
    let (hd, data) = open(&[1; 32], &mut b[..n]).unwrap();
    assert_eq!(hd, h());
    assert_eq!(data, b"abc");
}

#[test]
fn replay_refuses_repeats_and_old_sequences() {
    let mut r = Replay::default();
    assert!(r.accept(100));
    assert!(!r.accept(100));
    assert!(r.accept(90));
    assert!(!r.accept(90));
    assert!(r.accept(200));
    assert!(!r.accept(90));
    assert!(!r.accept(136));
    assert!(r.accept(137));
    assert!(!r.accept(100));
}

#[test]
fn frames_carry_a_big_endian_length() {
    assert_eq!(encode_frame(b"{}").unwrap(), vec![0, 0, 0, 2, b'{', b'}']);
    assert_eq!(encode_frame(&vec![0u8; 16385]), Err(ProtocolError::ControlTooLarge));
    assert_eq!(encode_frame(&vec![0u8; 16384]).unwrap().len(), 16388);
    assert_eq!(frame_length(&[0, 0, 0x40, 0]), Ok(16384));
    assert_eq!(frame_length(&[0, 0, 0, 0]), Err(ProtocolError::InvalidControlLength));
    assert_eq!(frame_length(&[0, 0, 0x40, 1]), Err(ProtocolError::InvalidControlLength));
    let framed = encode_frame(b"hello").unwrap();
    assert_eq!(frame_length(&[framed[0], framed[1], framed[2], framed[3]]), Ok(5));
}

#[test]
fn accepted_once_even_with_reordering_between() {
    let mut r = Replay::default();
    assert!(r.accept(100));
    assert!(r.accept(90));
    assert!(r.accept(150));
    assert!(r.accept(95));
    assert!(!r.accept(100));
    assert!(!r.accept(90));
    assert!(!r.accept(95));
    assert!(r.accept(99));
}
