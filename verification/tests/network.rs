use linmic::network::{certificate_fingerprint, key, local_address, mdns_hostname, random_hex, IpAddress, KeyError};

#[test]
fn keys() {
    let a = random_hex();
    let b = random_hex();
    assert_ne!(a, b);
    assert!(key(&a).is_ok());
    assert!(key("00").is_err());
}

#[test]
fn random_hex_is_64_lowercase_digits() {
    let a = random_hex();
    assert_eq!(a.len(), 64);
    assert!(a.chars().all(|c| c.is_ascii_digit() || ('a'..='f').contains(&c)));
}

#[test]
fn key_decodes_32_bytes_of_either_case() {
    let text = "00FF".repeat(16);
    let k = key(&text).unwrap();
    assert_eq!(k[0], 0);
    assert_eq!(k[1], 0xff);
    assert_eq!(key("0"), Err(KeyError::InvalidHex));
    assert_eq!(key(&"zz".repeat(32)), Err(KeyError::InvalidHex));
    assert_eq!(key(&"ab".repeat(31)), Err(KeyError::InvalidKey));
}

#[test]
fn fingerprint_is_sha256_in_hex() {
    assert_eq!(
        certificate_fingerprint(b""),
        "e3b0c44298fc1c149afbf4c8996fb92427ae41e4649b934ca495991b7852b855"
    );
    assert_eq!(
        certificate_fingerprint(b"abc"),
        "ba7816bf8f01cfea414140de5dae2223b00361a396177a9cb410ff61f20015ad"
    );
}

#[test]
fn local_addresses() {
    assert!(local_address(IpAddress::V4([192, 168, 1, 5])));
    assert!(local_address(IpAddress::V4([10, 0, 0, 1])));
    assert!(local_address(IpAddress::V4([172, 16, 0, 1])));
    assert!(local_address(IpAddress::V4([172, 31, 255, 255])));
    assert!(!local_address(IpAddress::V4([172, 32, 0, 1])));
    assert!(local_address(IpAddress::V4([127, 0, 0, 1])));
    assert!(local_address(IpAddress::V4([169, 254, 3, 4])));
    assert!(!local_address(IpAddress::V4([8, 8, 8, 8])));
    assert!(local_address(IpAddress::V6([0, 0, 0, 0, 0, 0, 0, 1])));
    assert!(local_address(IpAddress::V6([0xfd12, 0, 0, 0, 0, 0, 0, 1])));
    assert!(local_address(IpAddress::V6([0xfe80, 0, 0, 0, 0, 0, 0, 1])));
    assert!(!local_address(IpAddress::V6([0x2001, 0xdb8, 0, 0, 0, 0, 0, 1])));
    assert!(local_address(IpAddress::V6([0, 0, 0, 0, 0, 0xffff, 0xc0a8, 0x0101])));
    assert!(!local_address(IpAddress::V6([0, 0, 0, 0, 0, 0xffff, 0x0808, 0x0808])));
}

#[test]
fn hostnames() {
    assert_eq!(mdns_hostname("My PC!"), "My-PC-.local.");
    assert_eq!(mdns_hostname("cachyos"), "cachyos.local.");
    assert_eq!(mdns_hostname("café"), "caf-.local.");
}
