use linmic::control::ActiveStream;
use linmic::jitter::{Due, Packet};
use linmic::network::IpAddress;
use linmic::protocol::{seal, Header, ProtocolError, Replay, ENCRYPTED, FEC, KEEPALIVE, MUTED};
use linmic::receiver::{
    receive_datagram, reconnect_due, ring_accepts, ring_occupancy, same_ip, Frame, Playout,
    RxError, STALL_US,
};

const KEY: [u8; 32] = [9; 32];

fn stream() -> ActiveStream {
    ActiveStream { id: 77, key: KEY, ip: IpAddress::V4([10, 0, 0, 2]), frame: 480, created_us: 1_000 }
}

fn header(sequence: u32, session: u32, frame_samples: u16) -> Header {
    Header {
        flags: ENCRYPTED,
        session,
        sequence,
        sample_index: sequence as u64 * 480,
        sender_time_us: 5,
        frame_samples,
        payload_len: 4,
    }
}

fn datagram(h: &Header, key: &[u8; 32]) -> ([u8; 1200], usize) {
    let mut b = [0u8; 1200];
    let n = seal(key, h, b"opus", &mut b).unwrap();
    (b, n)
}

#[test]
fn addresses_compare_by_family_and_value() {
    assert!(same_ip(IpAddress::V4([1, 2, 3, 4]), IpAddress::V4([1, 2, 3, 4])));
    assert!(!same_ip(IpAddress::V4([1, 2, 3, 4]), IpAddress::V4([1, 2, 3, 5])));
    assert!(!same_ip(IpAddress::V4([0; 4]), IpAddress::V6([0; 8])));
    assert!(same_ip(IpAddress::V6([1, 0, 0, 0, 0, 0, 0, 1]), IpAddress::V6([1, 0, 0, 0, 0, 0, 0, 1])));
}

#[test]
fn fresh_datagram_of_the_session_is_admitted_once() {
    let mut replay = Replay::default();
    let (mut b, n) = datagram(&header(3, 77, 480), &KEY);
    let copy = b;
    let (h, data) = receive_datagram(Some(stream()), stream().ip, &mut replay, &mut b[..n])
        .unwrap()
        .unwrap();
    assert_eq!((h.sequence, data), (3, &b"opus"[..]));
    let mut again = copy;
    assert!(receive_datagram(Some(stream()), stream().ip, &mut replay, &mut again[..n])
        .unwrap()
        .is_none());
}

#[test]
fn foreign_datagrams_are_refused_before_the_replay_window() {
    let mut replay = Replay::default();
    let (mut b, n) = datagram(&header(1, 77, 480), &KEY);
    let copy = b;
    assert_eq!(
        receive_datagram(None, stream().ip, &mut replay, &mut b[..n]).err(),
        Some(RxError::NoSession)
    );
    assert_eq!(
        receive_datagram(Some(stream()), IpAddress::V4([10, 0, 0, 3]), &mut replay, &mut b[..n])
            .err(),
        Some(RxError::WrongSource)
    );
    let (mut other, m) = datagram(&header(1, 78, 480), &KEY);
    assert_eq!(
        receive_datagram(Some(stream()), stream().ip, &mut replay, &mut other[..m]).err(),
        Some(RxError::WrongSession)
    );
    let (mut wrong_size, m) = datagram(&header(1, 77, 960), &KEY);
    assert_eq!(
        receive_datagram(Some(stream()), stream().ip, &mut replay, &mut wrong_size[..m]).err(),
        Some(RxError::WrongSession)
    );
    let (mut forged, m) = datagram(&header(1, 77, 480), &[1; 32]);
    assert_eq!(
        receive_datagram(Some(stream()), stream().ip, &mut replay, &mut forged[..m]).err(),
        Some(RxError::Malformed(ProtocolError::AuthenticationFailed))
    );
    assert_eq!(
        receive_datagram(Some(stream()), stream().ip, &mut replay, &mut b[..10]).err(),
        Some(RxError::Malformed(ProtocolError::InvalidDatagramSize))
    );
    b = copy;
    assert!(receive_datagram(Some(stream()), stream().ip, &mut replay, &mut b[..n])
        .unwrap()
        .is_some());
}

fn packet(flags: u16, frame_samples: u16) -> Packet {
    let mut h = header(0, 77, frame_samples);
    h.flags = flags;
    Packet::new(h, b"opus")
}

#[test]
fn playout_follows_sessions_and_stalls() {
    let mut p = Playout::new();
    assert!(!p.follow(0, 5));
    assert!(p.follow(77, 5));
    assert_eq!((p.current, p.epoch, p.misses), (77, 5, 0));
    assert!(p.idle(77, 0));
    assert!(!p.arrival(1_000));
    assert!(!p.idle(77, 1_000 + STALL_US));
    assert!(p.idle(77, 1_001 + STALL_US));
    assert!(p.idle(0, 1_000));
    assert!(!p.arrival(1_000 + STALL_US));
    assert!(p.arrival(1_001 + 2 * STALL_US));
    assert!(!p.follow(77, 9));
    assert_eq!(p.epoch, 5);
}

#[test]
fn released_frames_decode_silence_or_conceal() {
    let mut p = Playout::new();
    assert_eq!(p.plan(&Due::Wait, None), None);
    assert_eq!(p.plan(&Due::Packet(packet(ENCRYPTED, 480)), None), Some(Frame::Decode(480)));
    assert_eq!(
        p.plan(&Due::Packet(packet(ENCRYPTED | MUTED, 240)), None),
        Some(Frame::Silence { samples: 240, phone_muted: true })
    );
    assert_eq!(
        p.plan(&Due::Packet(packet(ENCRYPTED | KEEPALIVE, 480)), None),
        Some(Frame::Silence { samples: 480, phone_muted: true })
    );
    let next = packet(ENCRYPTED | FEC, 480);
    assert_eq!(
        p.plan(&Due::Missing(480), Some(&next)),
        Some(Frame::Conceal { samples: 480, fec: true })
    );
    assert_eq!(
        p.plan(&Due::Missing(480), Some(&packet(ENCRYPTED, 480))),
        Some(Frame::Conceal { samples: 480, fec: false })
    );
    assert_eq!(p.plan(&Due::Missing(480), None), Some(Frame::Conceal { samples: 480, fec: false }));
    assert!(!p.silent(false, false));
    assert_eq!(
        p.plan(&Due::Missing(480), Some(&next)),
        Some(Frame::Silence { samples: 480, phone_muted: false })
    );
    assert!(p.silent(false, false));
    assert_eq!(p.plan(&Due::Packet(packet(ENCRYPTED, 480)), None), Some(Frame::Decode(480)));
    assert_eq!(p.misses, 0);
    assert!(p.silent(true, false));
    assert!(p.silent(false, true));
}

#[test]
fn reconnecting_waits_half_a_second_after_creation() {
    assert!(!reconnect_due(None, 10_000_000));
    assert!(!reconnect_due(Some(stream()), 1_000 + STALL_US));
    assert!(reconnect_due(Some(stream()), 1_001 + STALL_US));
    let mut s = stream();
    s.id = 0;
    assert!(!reconnect_due(Some(s), 10_000_000));
}

#[test]
fn output_ring_drops_frames_above_its_high_water_mark() {
    assert_eq!(ring_occupancy(4800), 0);
    assert_eq!(ring_occupancy(1000), 3800);
    assert!(ring_accepts(4800, 980));
    assert!(ring_accepts(2401, 980));
    assert!(!ring_accepts(2400, 980));
    assert!(!ring_accepts(500, 980));
}

#[test]
fn unencrypted_datagrams_are_named_as_such() {
    let mut replay = Replay::default();
    let mut h = header(1, 77, 480);
    h.flags = 0;
    let mut b = [0u8; 44];
    h.encode(&mut b).unwrap();
    assert_eq!(
        receive_datagram(Some(stream()), stream().ip, &mut replay, &mut b).err(),
        Some(RxError::Malformed(ProtocolError::Unencrypted))
    );
}
