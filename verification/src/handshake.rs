//! The two ends of the pairing conversation on the control connection: the desktop issues a
//! SPAKE2 challenge and checks the phone's submission; a client checks the desktop's
//! challenge, submits its own message and proof, and checks the desktop's answer.
//!
//! Messages travel as hex text inside JSON. Each function below takes the fields it reads
//! (absent ones as `None`) and leaves reading and writing the JSON to the caller.
use vstd::prelude::*;
use vstd::string::StringSliceAdditionalSpecFns;
use vstd::utf8::encode_utf8;
use crate::control::{
    elapsed, Controller, PairingError, PairingWindow, MAX_PAIRING_ATTEMPTS, PAIRING_WINDOW_US,
};
use crate::crypto::{
    hex_bytes, hex_decode, hex_encode, hex_text, lemma_hex_roundtrip, sha256,
    sha256_of, Exchange, PakeKey,
};
use crate::pairing::{
    binding_proof, finish_refusal, is_pairing_code, make_proof, proof_accepted, side_byte,
    verify, MESSAGE_LEN,
};
use crate::text::str_eq;

verus! {

/// Why a pairing conversation stopped.
#[derive(Debug, Clone, Copy, PartialEq, Eq, Structural)]
pub enum PairFailure {
    /// The desktop's pairing window refused another attempt.
    Window(PairingError),
    /// The code is not six ASCII digits.
    InvalidCode,
    /// The desktop offered a pairing method other than `spake2-v1`.
    UnsupportedMethod,
    /// The phone's submission is not a `spake2-v1` `pair_submit`.
    OutdatedClient,
    /// A field that this step reads is absent.
    MissingField,
    /// A field that should hold hex does not.
    InvalidHex,
    /// The peer's SPAKE2 message was refused.
    Exchange,
    /// The phone's proof does not match: it used another code.
    IncorrectCode,
    /// The desktop did not answer `pair_success`.
    Rejected,
    /// The desktop's proof does not match: it is not the desktop that holds the code.
    ServerUnauthenticated,
}

/// Whether a text field is present and holds exactly `expected`.
pub open spec fn field_is(field: Option<&str>, expected: Seq<char>) -> bool {
    field is Some && field->Some_0@ == expected
}

fn field_equals(field: Option<&str>, expected: &str) -> (r: bool)
    ensures
        r == field_is(field, expected@),
{
    match field {
        Some(f) => str_eq(f, expected),
        None => false,
    }
}

/// Whether a pairing window is open at `now` and may start another exchange.
pub open spec fn window_admits(w: PairingWindow, now: u64) -> bool {
    elapsed(now, w.created_us) < PAIRING_WINDOW_US && w.attempts < MAX_PAIRING_ATTEMPTS
}

/// Law: a pairing window starts at most five exchanges. A window that already started five
/// refuses every further attempt, and an admitted attempt leaves the count at five or below.
pub proof fn lemma_attempts_bounded(w: PairingWindow, now: u64)
    ensures
        w.attempts >= MAX_PAIRING_ATTEMPTS ==> !window_admits(w, now),
        window_admits(w, now) ==> w.attempts + 1 <= MAX_PAIRING_ATTEMPTS,
        elapsed(now, w.created_us) >= PAIRING_WINDOW_US ==> !window_admits(w, now),
{
}

/// Desktop: counts one more attempt against the open pairing window and starts the exchange
/// as the server with its code. Returns the exchange, the hex challenge message and the
/// window's issue time.
pub fn server_challenge(ctrl: &mut Controller, now: u64) -> (r: Result<
    (Exchange, String, u64),
    PairFailure,
>)
    ensures
        old(ctrl).pairing is None ==> r == Err::<(Exchange, String, u64), PairFailure>(
            PairFailure::Window(PairingError::NotOpen),
        ),
        old(ctrl).pairing is Some && !window_admits(old(ctrl).pairing->Some_0, now) ==> r
            == Err::<(Exchange, String, u64), PairFailure>(
            PairFailure::Window(PairingError::ExpiredOrLocked),
        ),
        old(ctrl).pairing is Some && window_admits(old(ctrl).pairing->Some_0, now) ==> {
            let w = old(ctrl).pairing->Some_0;
            &&& final(ctrl).pairing == Some(
                PairingWindow { attempts: (w.attempts + 1) as u8, ..w },
            )
            &&& (r is Ok <==> is_pairing_code(encode_utf8(w.code@)))
            &&& !is_pairing_code(encode_utf8(w.code@)) ==> r == Err::<
                (Exchange, String, u64),
                PairFailure,
            >(PairFailure::InvalidCode)
        },
        old(ctrl).pairing is None || !window_admits(old(ctrl).pairing->Some_0, now)
            ==> final(ctrl).pairing == old(ctrl).pairing,
        r is Ok ==> r->Ok_0.0.is_server(),
        r is Ok ==> r->Ok_0.2 == old(ctrl).pairing->Some_0.created_us && exists|m: Seq<u8>|
            m.len() == MESSAGE_LEN && m[0] == side_byte(true) && r->Ok_0.1@ == hex_text(m),
        old(ctrl).wf() ==> final(ctrl).wf(),
        final(ctrl).state == old(ctrl).state,
        final(ctrl).session == old(ctrl).session,
        final(ctrl).muted == old(ctrl).muted,
        final(ctrl).revision == old(ctrl).revision,
        final(ctrl).devices@ == old(ctrl).devices@,
{
    let (code, issued) = match ctrl.begin_pairing_attempt(now) {
        Ok(v) => v,
        Err(e) => {
            return Err(PairFailure::Window(e));
        },
    };
    match Exchange::start(code.as_str(), true) {
        Ok((exchange, message)) => {
            let text = hex_encode(message.as_slice());
            Ok((exchange, text, issued))
        },
        Err(_) => Err(PairFailure::InvalidCode),
    }
}

/// The bytes that a present hex field decodes to.
pub open spec fn hex_field(field: Option<&str>) -> Option<Seq<u8>> {
    match field {
        Some(t) => hex_bytes(t.spec_bytes()),
        None => None,
    }
}

/// Either end: decodes the peer's hex SPAKE2 message and completes the exchange with it.
pub fn finish_hex(exchange: Exchange, message_hex: Option<&str>) -> (r: Result<PakeKey, PairFailure>)
    ensures
        message_hex is None ==> r == Err::<PakeKey, PairFailure>(PairFailure::MissingField),
        message_hex is Some && hex_field(message_hex) is None ==> r == Err::<PakeKey, PairFailure>(
            PairFailure::InvalidHex,
        ),
        hex_field(message_hex) is Some ==> (finish_refusal(
            hex_field(message_hex)->Some_0,
            exchange.is_server(),
        ) is None <==> r is Ok),
        hex_field(message_hex) is Some && finish_refusal(
            hex_field(message_hex)->Some_0,
            exchange.is_server(),
        ) is Some ==> r == Err::<PakeKey, PairFailure>(PairFailure::Exchange),
{
    let text = match message_hex {
        Some(t) => t,
        None => {
            return Err(PairFailure::MissingField);
        },
    };
    let message = match hex_decode(text) {
        Ok(m) => m,
        Err(_) => {
            return Err(PairFailure::InvalidHex);
        },
    };
    match exchange.finish(message.as_slice()) {
        Ok(key) => Ok(key),
        Err(_) => Err(PairFailure::Exchange),
    }
}

/// Whether a phone's submission is a `pair_submit` of method `spake2-v1`; older apps send
/// something else and are told to update.
pub fn submission_supported(kind: Option<&str>, method: Option<&str>) -> (r: bool)
    ensures
        r == (field_is(kind, "pair_submit"@) && field_is(method, "spake2-v1"@)),
{
    field_equals(kind, "pair_submit") && field_equals(method, "spake2-v1")
}

/// Desktop: checks the phone's proof against the desktop's own certificate fingerprint (hex
/// SHA-256) and answers with the desktop's confirmation proof.
pub fn server_confirm(key: &[u8], fingerprint_hex: &str, proof_hex: Option<&str>) -> (r: Result<
    [u8; 32],
    PairFailure,
>)
    ensures
        match (hex_bytes(fingerprint_hex.spec_bytes()), proof_hex) {
            (None, _) => r == Err::<[u8; 32], PairFailure>(PairFailure::InvalidHex),
            (Some(_), None) => r == Err::<[u8; 32], PairFailure>(PairFailure::MissingField),
            (Some(c), Some(t)) => match hex_bytes(t.spec_bytes()) {
                None => r == Err::<[u8; 32], PairFailure>(PairFailure::InvalidHex),
                Some(p) => if proof_accepted(key@, c, false, p) {
                    r is Ok && r->Ok_0@ == binding_proof(key@, c, true)
                } else {
                    r == Err::<[u8; 32], PairFailure>(PairFailure::IncorrectCode)
                },
            },
        },
{
    let certificate = match hex_decode(fingerprint_hex) {
        Ok(c) => c,
        Err(_) => {
            return Err(PairFailure::InvalidHex);
        },
    };
    let text = match proof_hex {
        Some(t) => t,
        None => {
            return Err(PairFailure::MissingField);
        },
    };
    let proof = match hex_decode(text) {
        Ok(p) => p,
        Err(_) => {
            return Err(PairFailure::InvalidHex);
        },
    };
    if !verify(key, certificate.as_slice(), false, proof.as_slice()) {
        return Err(PairFailure::IncorrectCode);
    }
    Ok(make_proof(key, certificate.as_slice(), true))
}

/// Client: checks that the desktop offers `spake2-v1` and starts the exchange as the client
/// with the code the user typed. Returns the exchange and the message to submit.
pub fn client_start(method: Option<&str>, code: &str) -> (r: Result<(Exchange, Vec<u8>), PairFailure>)
    ensures
        !field_is(method, "spake2-v1"@) ==> r == Err::<(Exchange, Vec<u8>), PairFailure>(
            PairFailure::UnsupportedMethod,
        ),
        field_is(method, "spake2-v1"@) && !is_pairing_code(code.spec_bytes()) ==> r == Err::<
            (Exchange, Vec<u8>),
            PairFailure,
        >(PairFailure::InvalidCode),
        r is Ok <==> field_is(method, "spake2-v1"@) && is_pairing_code(code.spec_bytes()),
        r is Ok ==> r->Ok_0.1@.len() == MESSAGE_LEN && r->Ok_0.1@[0] == side_byte(false)
            && !r->Ok_0.0.is_server(),
{
    if !field_equals(method, "spake2-v1") {
        return Err(PairFailure::UnsupportedMethod);
    }
    match Exchange::start(code, false) {
        Ok(v) => Ok(v),
        Err(_) => Err(PairFailure::InvalidCode),
    }
}

/// Client: what it submits once its key is agreed: its message and its proof, both as hex,
/// and the SHA-256 of the desktop's pinned certificate, which its proofs are bound to.
pub fn client_submission(key: &[u8], message: &[u8], certificate: &[u8]) -> (r: (
    String,
    String,
    [u8; 32],
))
    ensures
        r.0@ == hex_text(message@),
        r.1@ == hex_text(binding_proof(key@, sha256_of(certificate@), false)),
        r.2@ == sha256_of(certificate@),
{
    let fingerprint = sha256(certificate);
    let proof = make_proof(key, &fingerprint, false);
    (hex_encode(message), hex_encode(&proof), fingerprint)
}

/// Client: accepts the desktop's answer only when it reports success and carries the
/// desktop's proof for the same key and certificate.
pub fn client_confirm(key: &[u8], fingerprint: &[u8], kind: Option<&str>, proof_hex: Option<&str>) -> (r:
    Result<(), PairFailure>)
    ensures
        !field_is(kind, "pair_success"@) ==> r == Err::<(), PairFailure>(PairFailure::Rejected),
        field_is(kind, "pair_success"@) && proof_hex is None ==> r == Err::<(), PairFailure>(
            PairFailure::MissingField,
        ),
        field_is(kind, "pair_success"@) && proof_hex is Some ==> match hex_bytes(
            proof_hex->Some_0.spec_bytes(),
        ) {
            None => r == Err::<(), PairFailure>(PairFailure::InvalidHex),
            Some(p) => if proof_accepted(key@, fingerprint@, true, p) {
                r is Ok
            } else {
                r == Err::<(), PairFailure>(PairFailure::ServerUnauthenticated)
            },
        },
{
    if !field_equals(kind, "pair_success") {
        return Err(PairFailure::Rejected);
    }
    let text = match proof_hex {
        Some(t) => t,
        None => {
            return Err(PairFailure::MissingField);
        },
    };
    let proof = match hex_decode(text) {
        Ok(p) => p,
        Err(_) => {
            return Err(PairFailure::InvalidHex);
        },
    };
    if verify(key, fingerprint, true, proof.as_slice()) {
        Ok(())
    } else {
        Err(PairFailure::ServerUnauthenticated)
    }
}

/// Law: an honest exchange completes on both ends. When the desktop and the phone hold the
/// same key and the phone pins the desktop's certificate, the desktop's fingerprint text and
/// the phone's proof text decode to what the desktop checks, the desktop accepts the phone's
/// proof, and the desktop's confirmation, sent back as hex, decodes to a proof the phone
/// accepts.
pub proof fn lemma_honest_pairing(key: Seq<u8>, certificate: Seq<u8>)
    ensures
        ({
            let c = sha256_of(certificate);
            let client_proof = binding_proof(key, c, false);
            let server_proof = binding_proof(key, c, true);
            &&& hex_bytes(encode_utf8(hex_text(c))) == Some(c)
            &&& hex_bytes(encode_utf8(hex_text(client_proof))) == Some(client_proof)
            &&& proof_accepted(key, c, false, client_proof)
            &&& hex_bytes(encode_utf8(hex_text(server_proof))) == Some(server_proof)
            &&& proof_accepted(key, c, true, server_proof)
        }),
{
    let c = sha256_of(certificate);
    lemma_hex_roundtrip(c);
    lemma_hex_roundtrip(binding_proof(key, c, false));
    lemma_hex_roundtrip(binding_proof(key, c, true));
}

} // verus!
