use linmic::control::{Controller, PairingError};
use linmic::handshake::{
    client_confirm, client_start, client_submission, finish_hex, server_challenge, server_confirm,
    submission_supported, PairFailure,
};
use linmic::network::certificate_fingerprint;
use linmic::pairing::make_proof;
use sha2::{Digest, Sha256};

const CERT: &[u8] = b"a DER certificate";

#[test]
fn honest_pairing_completes_on_both_ends() {
    let mut desktop = Controller::new(Vec::new());
    let code = desktop.open_pairing(1_000);
    let (server, challenge, issued) = server_challenge(&mut desktop, 2_000).unwrap();
    assert_eq!(issued, 1_000);
    assert_eq!(desktop.pairing.as_ref().unwrap().attempts, 1);
    assert_eq!(challenge.len(), 66);
    assert!(challenge.starts_with("42"));

    let (client, message) = client_start(Some("spake2-v1"), &code).unwrap();
    let client_key = finish_hex(client, Some(&challenge)).unwrap();
    let (message_hex, proof_hex, fingerprint) =
        client_submission(client_key.bytes(), &message, CERT);
    assert_eq!(message_hex, hex::encode(&message));
    assert_eq!(fingerprint.to_vec(), Sha256::digest(CERT).to_vec());
    assert_eq!(
        proof_hex,
        hex::encode(make_proof(client_key.bytes(), &fingerprint, false))
    );

    assert!(submission_supported(Some("pair_submit"), Some("spake2-v1")));
    let server_key = finish_hex(server, Some(&message_hex)).unwrap();
    let desktop_fingerprint = certificate_fingerprint(CERT);
    let confirmation =
        server_confirm(server_key.bytes(), &desktop_fingerprint, Some(&proof_hex)).unwrap();
    assert_eq!(confirmation, make_proof(server_key.bytes(), &fingerprint, true));
    assert_eq!(
        client_confirm(
            client_key.bytes(),
            &fingerprint,
            Some("pair_success"),
            Some(&hex::encode(confirmation))
        ),
        Ok(())
    );
}

#[test]
fn wrong_code_is_caught_by_the_desktop() {
    let mut desktop = Controller::new(Vec::new());
    let code = desktop.open_pairing(0);
    let other = if code == "111111" { "222222" } else { "111111" };
    let (server, challenge, _) = server_challenge(&mut desktop, 1).unwrap();
    let (client, message) = client_start(Some("spake2-v1"), other).unwrap();
    let client_key = finish_hex(client, Some(&challenge)).unwrap();
    let (message_hex, proof_hex, _) = client_submission(client_key.bytes(), &message, CERT);
    let server_key = finish_hex(server, Some(&message_hex)).unwrap();
    assert_eq!(
        server_confirm(server_key.bytes(), &certificate_fingerprint(CERT), Some(&proof_hex)),
        Err(PairFailure::IncorrectCode)
    );
}

#[test]
fn reflected_desktop_proof_is_refused_by_the_client() {
    let fingerprint: [u8; 32] = Sha256::digest(CERT).into();
    let key = [5u8; 32];
    let client_proof = hex::encode(make_proof(&key, &fingerprint, false));
    assert_eq!(
        client_confirm(&key, &fingerprint, Some("pair_success"), Some(&client_proof)),
        Err(PairFailure::ServerUnauthenticated)
    );
    let desktop_proof = hex::encode(make_proof(&key, &fingerprint, true));
    assert_eq!(
        server_confirm(&key, &certificate_fingerprint(CERT), Some(&desktop_proof)),
        Err(PairFailure::IncorrectCode)
    );
}

#[test]
fn each_refusal_names_its_step() {
    let mut desktop = Controller::new(Vec::new());
    assert_eq!(
        server_challenge(&mut desktop, 0).err(),
        Some(PairFailure::Window(PairingError::NotOpen))
    );
    desktop.open_pairing(0);
    desktop.pairing.as_mut().unwrap().code = "12a456".to_string();
    assert_eq!(server_challenge(&mut desktop, 1).err(), Some(PairFailure::InvalidCode));
    assert_eq!(desktop.pairing.as_ref().unwrap().attempts, 1);

    assert_eq!(client_start(Some("spake1"), "123456").err(), Some(PairFailure::UnsupportedMethod));
    assert_eq!(client_start(None, "123456").err(), Some(PairFailure::UnsupportedMethod));
    assert_eq!(client_start(Some("spake2-v1"), "12345").err(), Some(PairFailure::InvalidCode));

    let (c, _) = client_start(Some("spake2-v1"), "123456").unwrap();
    assert_eq!(finish_hex(c, None).err(), Some(PairFailure::MissingField));
    let (c, _) = client_start(Some("spake2-v1"), "123456").unwrap();
    assert_eq!(finish_hex(c, Some("zz")).err(), Some(PairFailure::InvalidHex));
    let (c, _) = client_start(Some("spake2-v1"), "123456").unwrap();
    assert_eq!(finish_hex(c, Some("4242")).err(), Some(PairFailure::Exchange));

    assert!(!submission_supported(Some("pair_submit"), None));
    assert!(!submission_supported(Some("hello"), Some("spake2-v1")));

    let key = [1u8; 32];
    assert_eq!(server_confirm(&key, "xyz", Some("00")), Err(PairFailure::InvalidHex));
    assert_eq!(server_confirm(&key, "00", None), Err(PairFailure::MissingField));
    assert_eq!(server_confirm(&key, "00", Some("0")), Err(PairFailure::InvalidHex));
    assert_eq!(client_confirm(&key, &[0], Some("pair_error"), Some("00")), Err(PairFailure::Rejected));
    assert_eq!(client_confirm(&key, &[0], None, Some("00")), Err(PairFailure::Rejected));
    assert_eq!(client_confirm(&key, &[0], Some("pair_success"), None), Err(PairFailure::MissingField));
    assert_eq!(
        client_confirm(&key, &[0], Some("pair_success"), Some("0g")),
        Err(PairFailure::InvalidHex)
    );
}
