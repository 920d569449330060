//! Code-only pairing: SPAKE2 over Ed25519 with a six-digit code, confirmed by HMAC proofs
//! bound to the TLS certificate. The code itself never crosses the wire.
use vstd::prelude::*;
use vstd::string::StringSliceAdditionalSpecFns;
use vstd::utf8::is_ascii_chars_encode_utf8;
use crate::crypto::{
    edwards_decompress, edwards_decompresses, edwards_identity, edwards_is_identity,
    edwards_is_torsion_free, edwards_torsion_free, hmac_sha256, hmac_sha256_of,
    hmac_sha256_verify, spake2_finish, spake2_start_a, spake2_start_b, Exchange, PakeKey,
};
use crate::text::append_bytes;

verus! {

/// Length of a SPAKE2 message: a side byte and a compressed point.
pub const MESSAGE_LEN: usize = 33;

/// Whether `code` is exactly six ASCII digits.
pub open spec fn is_pairing_code(code: Seq<u8>) -> bool {
    &&& code.len() == 6
    &&& forall|i: int| 0 <= i < 6 ==> 48 <= #[trigger] code[i] <= 57
}

/// The side byte that opens the message of the server ('B') or the client ('A').
pub open spec fn side_byte(server: bool) -> u8 {
    if server {
        0x42u8
    } else {
        0x41u8
    }
}

/// The label that separates these proofs from every other use of the key.
pub open spec fn binding_label() -> Seq<u8> {
    "org.linmic/pairing/spake2-v1/tls-certificate-binding\0".spec_bytes()
}

/// The role name that a proof speaks for.
pub open spec fn role_bytes(server: bool) -> Seq<u8> {
    if server {
        "server".spec_bytes()
    } else {
        "client".spec_bytes()
    }
}

/// The message a proof authenticates: label, role, then the certificate's SHA-256.
pub open spec fn binding_message(certificate_sha256: Seq<u8>, server: bool) -> Seq<u8> {
    binding_label() + role_bytes(server) + certificate_sha256
}

/// The confirmation proof of `server` (or the client) for a key and a certificate digest.
pub open spec fn binding_proof(key: Seq<u8>, certificate_sha256: Seq<u8>, server: bool) -> Seq<
    u8,
> {
    hmac_sha256_of(key, binding_message(certificate_sha256, server))
}

/// Whether `received` is the proof that `server` (or the client) owes for this key and
/// certificate digest.
pub open spec fn proof_accepted(
    key: Seq<u8>,
    certificate_sha256: Seq<u8>,
    server: bool,
    received: Seq<u8>,
) -> bool {
    received == binding_proof(key, certificate_sha256, server)
}

/// Why `Exchange::finish` refuses a peer message, checked in this order, or `None` when the
/// message yields a key: the length, the point's encoding, an identity or small-order point,
/// and the peer's side byte.
pub open spec fn finish_refusal(message: Seq<u8>, server: bool) -> Option<Seq<char>> {
    let point = message.subrange(1, 33);
    if message.len() != MESSAGE_LEN {
        Some("invalid PAKE message length"@)
    } else if !edwards_decompresses(point) {
        Some("invalid point"@)
    } else if edwards_identity(point) || !edwards_torsion_free(point) {
        Some("invalid group element"@)
    } else if message[0] != side_byte(!server) {
        Some("invalid PAKE exchange"@)
    } else {
        None
    }
}

impl Exchange {
    /// Starts the exchange for a six-digit code, as the server (desktop) or the client
    /// (Android), and returns the message to send to the peer.
    pub fn start(code: &str, server: bool) -> (r: Result<(Exchange, Vec<u8>), &'static str>)
        ensures
            is_pairing_code(code.spec_bytes()) <==> r is Ok,
            r is Ok ==> r->Ok_0.1@.len() == MESSAGE_LEN && r->Ok_0.1@[0] == side_byte(server)
                && r->Ok_0.0.is_server() == server,
            r is Err ==> r->Err_0@ == "six digits required"@,
    {
        let bytes = code.as_bytes();
        if bytes.len() != 6 {
            return Err("six digits required");
        }
        let mut i: usize = 0;
        while i < 6
            invariant
                i <= 6,
                bytes@.len() == 6,
                bytes@ == code.spec_bytes(),
                forall|j: int| 0 <= j < i ==> 48 <= #[trigger] bytes@[j] <= 57,
            decreases 6 - i,
        {
            if !(48 <= bytes[i] && bytes[i] <= 57) {
                return Err("six digits required");
            }
            i += 1;
        }
        let a = "org.linmic/pairing/spake2-v1/android".as_bytes();
        let b = "org.linmic/pairing/spake2-v1/desktop".as_bytes();
        let started = if server {
            spake2_start_b(bytes, a, b)
        } else {
            spake2_start_a(bytes, a, b)
        };
        Ok(started)
    }

    /// Derives the shared key from the peer's message after checking that it encodes a
    /// valid, non-identity, torsion-free group element and comes from the other side.
    pub fn finish(self, message: &[u8]) -> (r: Result<PakeKey, &'static str>)
        ensures
            match finish_refusal(message@, self.is_server()) {
                Some(e) => r is Err && r->Err_0@ == e,
                None => r is Ok,
            },
    {
        if message.len() != MESSAGE_LEN {
            return Err("invalid PAKE message length");
        }
        let mut point = [0u8; 32];
        let mut i: usize = 0;
        while i < 32
            invariant
                i <= 32,
                message@.len() == MESSAGE_LEN,
                forall|j: int| 0 <= j < i ==> point@[j] == message@[j + 1],
            decreases 32 - i,
        {
            point[i] = message[i + 1];
            i += 1;
        }
        assert(point@ =~= message@.subrange(1, 33));
        let decoded = match edwards_decompress(point) {
            Some(p) => p,
            None => {
                return Err("invalid point");
            },
        };
        if edwards_is_identity(&decoded) || !edwards_is_torsion_free(&decoded) {
            return Err("invalid group element");
        }
        match spake2_finish(self, message) {
            Ok(key) => Ok(key),
            Err(_) => Err("invalid PAKE exchange"),
        }
    }
}

/// The message that a proof authenticates, built from its parts.
fn binding(certificate_sha256: &[u8], server: bool) -> (r: Vec<u8>)
    ensures
        r@ == binding_message(certificate_sha256@, server),
{
    let mut m: Vec<u8> = Vec::new();
    append_bytes(&mut m, "org.linmic/pairing/spake2-v1/tls-certificate-binding\0".as_bytes());
    if server {
        append_bytes(&mut m, "server".as_bytes());
    } else {
        append_bytes(&mut m, "client".as_bytes());
    }
    append_bytes(&mut m, certificate_sha256);
    m
}

/// The direction-specific confirmation proof: HMAC-SHA256 under the PAKE key of the label,
/// the role and the SHA-256 of the TLS certificate.
pub fn make_proof(key: &[u8], certificate_sha256: &[u8], server: bool) -> (r: [u8; 32])
    ensures
        r@ == binding_proof(key@, certificate_sha256@, server),
{
    let m = binding(certificate_sha256, server);
    hmac_sha256(key, m.as_slice())
}

/// Checks a received confirmation proof in constant time.
pub fn verify(key: &[u8], certificate_sha256: &[u8], server: bool, received: &[u8]) -> (r: bool)
    ensures
        r == proof_accepted(key@, certificate_sha256@, server, received@),
{
    let m = binding(certificate_sha256, server);
    hmac_sha256_verify(key, m.as_slice(), received)
}

/// Both confirmation proofs for a key and certificate digest, the client's first, as the
/// Android side needs them: it sends the first and expects the second.
pub fn proof_pair(key: &[u8], certificate_sha256: &[u8]) -> (r: [u8; 64])
    ensures
        r@.take(32) == binding_proof(key@, certificate_sha256@, false),
        r@.skip(32) == binding_proof(key@, certificate_sha256@, true),
{
    let client = make_proof(key, certificate_sha256, false);
    let server = make_proof(key, certificate_sha256, true);
    let mut out = [0u8; 64];
    let mut i: usize = 0;
    while i < 32
        invariant
            i <= 32,
            client@.len() == 32,
            server@.len() == 32,
            forall|j: int| 0 <= j < i ==> out@[j] == client@[j],
            forall|j: int| 0 <= j < i ==> out@[32 + j] == server@[j],
        decreases 32 - i,
    {
        out[i] = client[i];
        out[32 + i] = server[i];
        i += 1;
    }
    assert(out@.take(32) =~= client@);
    assert(out@.skip(32) =~= server@);
    out
}

/// Law: a proof made for a key, certificate and role verifies for the same three.
pub proof fn lemma_proof_verifies(key: Seq<u8>, certificate_sha256: Seq<u8>, server: bool)
    ensures
        proof_accepted(
            key,
            certificate_sha256,
            server,
            binding_proof(key, certificate_sha256, server),
        ),
{
}

/// Law: the server and the client authenticate different messages, so a proof reflected
/// back to its sender is a proof over another message.
pub proof fn lemma_roles_separated(c1: Seq<u8>, c2: Seq<u8>)
    ensures
        binding_message(c1, true) != binding_message(c2, false),
{
    reveal_strlit("server");
    reveal_strlit("client");
    is_ascii_chars_encode_utf8("server"@);
    is_ascii_chars_encode_utf8("client"@);
    let n = binding_label().len() as int;
    assert(binding_message(c1, true)[n] == role_bytes(true)[0]);
    assert(binding_message(c2, false)[n] == role_bytes(false)[0]);
}

/// Law: a proof binds the certificate: two different certificate digests give different
/// authenticated messages.
pub proof fn lemma_certificate_bound(c1: Seq<u8>, c2: Seq<u8>, server: bool)
    requires
        c1 != c2,
    ensures
        binding_message(c1, server) != binding_message(c2, server),
{
    let p = binding_label() + role_bytes(server);
    if binding_message(c1, server) == binding_message(c2, server) {
        assert(c1 =~= binding_message(c1, server).skip(p.len() as int));
        assert(c2 =~= binding_message(c2, server).skip(p.len() as int));
    }
}

} // verus!
