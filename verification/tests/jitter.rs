use linmic::jitter::{Due, JitterBuffer, Packet, Push};
use linmic::protocol::Header;

fn p(seq: u32) -> Packet {
    Packet::new(
        Header {
            flags: 0,
            session: 1,
            sequence: seq,
            sample_index: seq as u64 * 480,
            sender_time_us: 0,
            frame_samples: 480,
            payload_len: 1,
        },
        &[1],
    )
}

const MS: u64 = 1000;

#[test]
fn reorder_loss_duplicate() {
    let t = 5_000_000;
    let mut j = JitterBuffer::new(20, 10, 80, false, t);
    assert_eq!(j.push(p(0), t), Push::Accepted);
    assert_eq!(j.push(p(2), t), Push::Accepted);
    assert_eq!(j.push(p(2), t), Push::Duplicate);
    assert!(matches!(j.pop(t), Due::Wait));
    assert!(matches!(j.pop(t + 20 * MS), Due::Packet(_)));
    assert!(matches!(j.pop(t + 30 * MS), Due::Missing(480)));
    assert_eq!(j.push(p(1), t), Push::Late);
    assert!(matches!(j.pop(t + 40 * MS), Due::Packet(_)));
}

#[test]
fn wrap() {
    let t = 5_000_000;
    let mut j = JitterBuffer::new(10, 10, 80, false, t);
    j.push(p(u32::MAX), t);
    j.push(p(0), t);
    assert!(matches!(j.pop(t + 10 * MS), Due::Packet(_)));
    assert!(matches!(j.pop(t + 20 * MS), Due::Packet(_)));
    j.reset();
    assert!(matches!(j.pop(t), Due::Wait));
}

#[test]
fn packets_come_out_in_sequence_order() {
    let mut j = JitterBuffer::new(10, 10, 80, false, 0);
    assert_eq!(j.push(p(7), 0), Push::Accepted);
    assert_eq!(j.push(p(9), 0), Push::Accepted);
    assert_eq!(j.push(p(8), 0), Push::Accepted);
    for (k, expected) in [7u32, 8, 9].iter().enumerate() {
        match j.pop(10 * MS + k as u64 * 10 * MS) {
            Due::Packet(q) => assert_eq!(q.header.sequence, *expected),
            _ => panic!("expected a packet"),
        }
    }
}

#[test]
fn too_far_ahead_is_refused() {
    let mut j = JitterBuffer::new(10, 10, 80, false, 0);
    assert_eq!(j.push(p(0), 0), Push::Accepted);
    assert_eq!(j.push(p(511), 0), Push::Accepted);
    assert_eq!(j.push(p(512), 0), Push::TooFar);
}

#[test]
fn peek_sees_the_next_frame_only() {
    let mut j = JitterBuffer::new(10, 10, 80, false, 0);
    assert!(j.peek_next().is_none());
    j.push(p(3), 0);
    assert_eq!(j.peek_next().unwrap().header.sequence, 3);
    j.push(p(4), 0);
    assert_eq!(j.peek_next().unwrap().header.sequence, 3);
}

#[test]
fn packet_data_is_the_announced_prefix() {
    let mut hd = p(0).header;
    hd.payload_len = 2;
    let q = Packet::new(hd, &[5, 6, 7]);
    assert_eq!(q.data(), &[5, 6]);
    assert_eq!(q.payload[2], 7);
    assert!(q.payload[3..].iter().all(|&x| x == 0));
}

#[test]
fn adaptive_target_steps_and_shifts_playout() {
    let mut j = JitterBuffer::new(20, 10, 80, true, 0);
    assert_eq!(j.push(p(0), 0), Push::Accepted);
    j.retarget(500 * MS, 60);
    assert_eq!(j.target_ms, 20);
    j.retarget(1000 * MS, 60);
    assert_eq!(j.target_ms, 25);
    assert!(matches!(j.pop(24 * MS), Due::Wait));
    assert!(matches!(j.pop(25 * MS), Due::Packet(_)));
    j.retarget(2000 * MS, 0);
    assert_eq!(j.target_ms, 24);
    j.retarget(3000 * MS, 500);
    assert_eq!(j.target_ms, 29);
    let mut fixed = JitterBuffer::new(20, 10, 80, false, 0);
    fixed.retarget(5000 * MS, 80);
    assert_eq!(fixed.target_ms, 20);
}

#[test]
fn a_late_reader_gets_every_stored_frame_in_turn() {
    let mut j = JitterBuffer::new(10, 10, 80, false, 0);
    for s in [3u32, 6, 4] {
        assert_eq!(j.push(p(s), 0), Push::Accepted);
    }
    let late = 10_000 * MS;
    for expected in [Some(3u32), Some(4), None, Some(6)] {
        match (j.pop(late), expected) {
            (Due::Packet(q), Some(e)) => assert_eq!(q.header.sequence, e),
            (Due::Missing(480), None) => {}
            _ => panic!("frames out of turn"),
        }
    }
}
