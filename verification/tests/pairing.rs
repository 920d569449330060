use hmac::{Hmac, Mac};
use linmic::crypto::Exchange;
use linmic::pairing::{make_proof, proof_pair, verify};
use sha2::Sha256;

#[test]
fn code_authentication_and_binding() {
    let (a, am) = Exchange::start("123456", false).unwrap();
    let (b, bm) = Exchange::start("123456", true).unwrap();
    let ak = a.finish(&bm).unwrap();
    let bk = b.finish(&am).unwrap();
    assert_eq!(ak.bytes(), bk.bytes());
    let p = make_proof(ak.bytes(), &[3; 32], false);
    assert!(verify(bk.bytes(), &[3; 32], false, &p));
    assert!(!verify(bk.bytes(), &[4; 32], false, &p));
    assert!(!verify(bk.bytes(), &[3; 32], true, &p));
}

#[test]
fn wrong_code() {
    let (a, am) = Exchange::start("123456", false).unwrap();
    let (b, bm) = Exchange::start("654321", true).unwrap();
    let ak = a.finish(&bm).unwrap();
    let bk = b.finish(&am).unwrap();
    assert!(!verify(bk.bytes(), &[3; 32], false, &make_proof(ak.bytes(), &[3; 32], false)));
}

#[test]
fn reflection() {
    let (a, msg) = Exchange::start("123456", false).unwrap();
    assert!(a.finish(&msg).is_err());
}

#[test]
fn malformed_points() {
    for message in [vec![0; 33], vec![1; 32], vec![255; 33]] {
        let (a, _) = Exchange::start("123456", false).unwrap();
        assert!(a.finish(&message).is_err());
    }
}

#[test]
fn fresh_ephemerals() {
    let (_, a) = Exchange::start("123456", false).unwrap();
    let (_, b) = Exchange::start("123456", false).unwrap();
    assert_ne!(a, b);
    assert!(Exchange::start("123", false).is_err());
}

#[test]
fn codes_must_be_six_ascii_digits() {
    assert_eq!(Exchange::start("12345a", true).err(), Some("six digits required"));
    assert_eq!(Exchange::start("1234567", true).err(), Some("six digits required"));
    assert!(Exchange::start("١٢٣٤٥٦", true).is_err());
    let (_, m) = Exchange::start("000000", true).unwrap();
    assert_eq!((m.len(), m[0]), (33, b'B'));
    let (_, m) = Exchange::start("999999", false).unwrap();
    assert_eq!((m.len(), m[0]), (33, b'A'));
}

#[test]
fn finish_refusals_name_their_cause() {
    let (a, _) = Exchange::start("123456", false).unwrap();
    assert_eq!(a.finish(&[0x42; 32]).err(), Some("invalid PAKE message length"));
    let (a, _) = Exchange::start("123456", false).unwrap();
    let mut identity = vec![0x42u8; 33];
    identity[1..].copy_from_slice(&[1, 0, 0, 0, 0, 0, 0, 0, 0, 0, 0, 0, 0, 0, 0, 0, 0, 0, 0, 0, 0, 0, 0, 0, 0, 0, 0, 0, 0, 0, 0, 0]);
    assert_eq!(a.finish(&identity).err(), Some("invalid group element"));
}

#[test]
fn proof_is_hmac_of_label_role_and_certificate() {
    let mut mac = <Hmac<Sha256> as Mac>::new_from_slice(b"key").unwrap();
    mac.update(b"org.linmic/pairing/spake2-v1/tls-certificate-binding\0serverCERT");
    let expected: [u8; 32] = mac.finalize().into_bytes().into();
    assert_eq!(make_proof(b"key", b"CERT", true), expected);
    assert!(verify(b"key", b"CERT", true, &expected));
    assert!(!verify(b"key", b"CERT", true, &expected[..31]));
}

#[test]
fn android_gets_both_proofs_client_first() {
    let both = proof_pair(b"key", b"CERT");
    assert_eq!(both[..32], make_proof(b"key", b"CERT", false));
    assert_eq!(both[32..], make_proof(b"key", b"CERT", true));
}

#[test]
fn own_message_reflected_back_is_refused() {
    let (a, msg) = Exchange::start("123456", false).unwrap();
    assert_eq!(a.finish(&msg).err(), Some("invalid PAKE exchange"));
    let (b, msg) = Exchange::start("123456", true).unwrap();
    assert_eq!(b.finish(&msg).err(), Some("invalid PAKE exchange"));
}
