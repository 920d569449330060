//! Calls into the cryptographic crates, each with the contract that the library relies on.
use vstd::prelude::*;
use vstd::string::StringSliceAdditionalSpecFns;
use vstd::utf8::{encode_utf8, is_ascii_chars, is_ascii_chars_encode_utf8};
use chacha20poly1305::aead::{AeadInPlace, KeyInit};
use chacha20poly1305::{ChaCha20Poly1305, Nonce, Tag};
use curve25519_dalek::edwards::{CompressedEdwardsY, EdwardsPoint};
use curve25519_dalek::traits::IsIdentity;
use hmac::{Hmac, Mac};
use rand::rngs::OsRng;
use rand::{Rng, RngCore};
use sha2::{Digest, Sha256};
use spake2::{Ed25519Group, Identity, Password, Spake2};
use zeroize::Zeroizing;

verus! {

#[verifier::external_type_specification]
#[verifier::external_body]
pub struct ExAeadError(chacha20poly1305::aead::Error);

/// The ciphertext followed by the 16-byte tag that ChaCha20-Poly1305 produces for
/// `plaintext` under `key`, `nonce` and associated data `aad`.
pub uninterp spec fn chacha20poly1305_seal(
    key: Seq<u8>,
    nonce: Seq<u8>,
    aad: Seq<u8>,
    plaintext: Seq<u8>,
) -> Seq<u8>;

/// Encrypts `buffer` in place with `ChaCha20Poly1305::encrypt_in_place_detached` and returns
/// the tag. The crate refuses only buffers of 2^32 - 1 or more 64-byte blocks, and then leaves
/// the buffer untouched; otherwise the ciphertext and tag are the named seal of the plaintext.
#[verifier::external_body]
pub(crate) fn aead_encrypt(key: &[u8; 32], nonce: &[u8; 12], aad: &[u8], buffer: &mut [u8]) -> (r:
    Result<[u8; 16], chacha20poly1305::aead::Error>)
    ensures
        final(buffer)@.len() == old(buffer)@.len(),
        old(buffer)@.len() / 64 < 0xffff_ffff ==> r is Ok,
        r is Ok ==> final(buffer)@ + r->Ok_0@ == chacha20poly1305_seal(
            key@,
            nonce@,
            aad@,
            old(buffer)@,
        ),
        r is Err ==> final(buffer)@ == old(buffer)@,
{
    let tag = ChaCha20Poly1305::new(key.into()).encrypt_in_place_detached(
        Nonce::from_slice(nonce),
        aad,
        buffer,
    )?;
    Ok(tag.into())
}

/// Authenticates and decrypts `buffer` in place with
/// `ChaCha20Poly1305::decrypt_in_place_detached`. The tag is checked before any byte changes,
/// so a refused buffer is left as it was. A buffer that decrypts yields a plaintext whose seal
/// is exactly the ciphertext and tag; every genuine seal of a plaintext decrypts to it.
#[verifier::external_body]
pub(crate) fn aead_decrypt(
    key: &[u8; 32],
    nonce: &[u8; 12],
    aad: &[u8],
    buffer: &mut [u8],
    tag: &[u8; 16],
) -> (r: Result<(), chacha20poly1305::aead::Error>)
    ensures
        final(buffer)@.len() == old(buffer)@.len(),
        r is Ok ==> chacha20poly1305_seal(key@, nonce@, aad@, final(buffer)@) == old(buffer)@
            + tag@,
        r is Err ==> final(buffer)@ == old(buffer)@,
        forall|p: Seq<u8>|
            chacha20poly1305_seal(key@, nonce@, aad@, p) == old(buffer)@ + tag@
                && old(buffer)@.len() / 64 < 0xffff_ffff ==> r is Ok && final(buffer)@ == p,
{
    ChaCha20Poly1305::new(key.into()).decrypt_in_place_detached(
        Nonce::from_slice(nonce),
        aad,
        buffer,
        Tag::from_slice(tag),
    )
}

/// The SHA-256 digest of `data`.
pub uninterp spec fn sha256_of(data: Seq<u8>) -> Seq<u8>;

/// Hashes `data` with `sha2::Sha256::digest`; the digest is the named SHA-256 of the bytes.
#[verifier::external_body]
pub(crate) fn sha256(data: &[u8]) -> (r: [u8; 32])
    ensures
        r@ == sha256_of(data@),
{
    Sha256::digest(data).into()
}

/// The HMAC-SHA256 of `message` under `key`.
pub uninterp spec fn hmac_sha256_of(key: Seq<u8>, message: Seq<u8>) -> Seq<u8>;

/// Computes HMAC-SHA256 with the `hmac` crate: `Hmac::new_from_slice`, which accepts keys of
/// every length, one `update` with the whole message, then `finalize`.
#[verifier::external_body]
pub(crate) fn hmac_sha256(key: &[u8], message: &[u8]) -> (r: [u8; 32])
    ensures
        r@ == hmac_sha256_of(key@, message@),
{
    let mut mac = <Hmac<Sha256> as Mac>::new_from_slice(key).expect("HMAC takes keys of any length");
    mac.update(message);
    mac.finalize().into_bytes().into()
}

/// Checks a received tag with `Mac::verify_slice`, which compares in constant time and
/// refuses tags of any length but 32; true exactly when the tag is the HMAC-SHA256 of
/// `message` under `key`.
#[verifier::external_body]
pub(crate) fn hmac_sha256_verify(key: &[u8], message: &[u8], tag: &[u8]) -> (r: bool)
    ensures
        r == (tag@ == hmac_sha256_of(key@, message@)),
{
    let mut mac = <Hmac<Sha256> as Mac>::new_from_slice(key).expect("HMAC takes keys of any length");
    mac.update(message);
    mac.verify_slice(tag).is_ok()
}

/// The lowercase hexadecimal digit for a value below 16.
pub open spec fn hex_digit(v: int) -> char {
    if v < 10 {
        (48 + v) as char
    } else {
        (87 + v) as char
    }
}

/// The lowercase hexadecimal text of `data`, two digits per byte, high nibble first.
pub open spec fn hex_text(data: Seq<u8>) -> Seq<char> {
    Seq::new(
        2 * data.len(),
        |i: int|
            if i % 2 == 0 {
                hex_digit(data[i / 2] as int / 16)
            } else {
                hex_digit(data[i / 2] as int % 16)
            },
    )
}

/// The value of one hexadecimal digit byte, upper or lower case.
pub open spec fn hex_value(c: u8) -> Option<int> {
    if 48 <= c <= 57 {
        Some(c - 48)
    } else if 65 <= c <= 70 {
        Some(c - 55)
    } else if 97 <= c <= 102 {
        Some(c - 87)
    } else {
        None
    }
}

/// The bytes that hexadecimal text decodes to: none for an odd length or a non-digit.
pub open spec fn hex_bytes(text: Seq<u8>) -> Option<Seq<u8>> {
    if text.len() % 2 != 0 {
        None
    } else if exists|i: int| 0 <= i < text.len() && #[trigger] hex_value(text[i]) is None {
        None
    } else {
        Some(
            Seq::new(
                text.len() / 2,
                |i: int| (hex_value(text[2 * i])->Some_0 * 16 + hex_value(text[2 * i + 1])->Some_0) as u8,
            ),
        )
    }
}

proof fn lemma_hex_digit(v: int)
    requires
        0 <= v < 16,
    ensures
        '\0' <= hex_digit(v) <= '\u{7f}',
        hex_value(hex_digit(v) as u8) == Some(v),
{
}

/// Law: decoding the hex text of any bytes gives the bytes back.
pub proof fn lemma_hex_roundtrip(data: Seq<u8>)
    ensures
        hex_bytes(encode_utf8(hex_text(data))) == Some(data),
{
    let t = hex_text(data);
    assert forall|i: int| 0 <= i < t.len() implies '\0' <= #[trigger] t[i] <= '\u{7f}' && hex_value(
        t[i] as u8,
    ) == Some(if i % 2 == 0 {
        data[i / 2] as int / 16
    } else {
        data[i / 2] as int % 16
    }) by {
        if i % 2 == 0 {
            lemma_hex_digit(data[i / 2] as int / 16);
        } else {
            lemma_hex_digit(data[i / 2] as int % 16);
        }
    }
    assert(is_ascii_chars(t));
    is_ascii_chars_encode_utf8(t);
    let b = encode_utf8(t);
    assert(b.len() == 2 * data.len());
    assert forall|i: int| 0 <= i < b.len() implies #[trigger] hex_value(b[i]) is Some by {
        assert(b[i] == t[i] as u8);
    }
    assert(!(exists|i: int| 0 <= i < b.len() && #[trigger] hex_value(b[i]) is None));
    let decoded = Seq::new(
        b.len() / 2,
        |i: int| (hex_value(b[2 * i])->Some_0 * 16 + hex_value(b[2 * i + 1])->Some_0) as u8,
    );
    assert forall|i: int| 0 <= i < data.len() implies decoded[i] == data[i] by {
        assert(b[2 * i] == t[2 * i] as u8);
        assert(b[2 * i + 1] == t[2 * i + 1] as u8);
        assert((2 * i) / 2 == i && (2 * i) % 2 == 0);
        assert((2 * i + 1) / 2 == i && (2 * i + 1) % 2 == 1);
    }
    assert(decoded =~= data);
}

#[verifier::external_type_specification]
#[verifier::external_body]
pub struct ExFromHexError(hex::FromHexError);

/// Encodes bytes with `hex::encode`: lowercase digits, two per byte, high nibble first.
#[verifier::external_body]
pub(crate) fn hex_encode(data: &[u8]) -> (r: String)
    ensures
        r@ == hex_text(data@),
{
    hex::encode(data)
}

/// Decodes text with `hex::decode`, which reads the text's bytes in pairs, accepts upper
/// and lower case digits, and refuses an odd length or any other byte.
#[verifier::external_body]
pub(crate) fn hex_decode(text: &str) -> (r: Result<Vec<u8>, hex::FromHexError>)
    ensures
        r is Ok <==> hex_bytes(text.spec_bytes()) is Some,
        r is Ok ==> r->Ok_0@ == hex_bytes(text.spec_bytes())->Some_0,
{
    hex::decode(text)
}

/// Fills 32 bytes from the operating system's generator with `OsRng::fill_bytes`, which
/// panics if the operating system cannot provide randomness. Nothing is stated of the bytes.
#[verifier::external_body]
pub(crate) fn os_random_bytes() -> (r: [u8; 32]) {
    let mut b = [0u8; 32];
    OsRng.fill_bytes(&mut b);
    b
}

/// Draws a number in `low..high` from the operating system's generator with `Rng::gen_range`,
/// which panics on an empty range.
#[verifier::external_body]
pub(crate) fn os_random_range(low: u32, high: u32) -> (r: u32)
    requires
        low < high,
    ensures
        low <= r < high,
{
    OsRng.gen_range(low..high)
}

#[verifier::external_type_specification]
#[verifier::external_body]
pub struct ExEdwardsPoint(EdwardsPoint);

/// Whether 32 bytes are the compressed encoding of a point on the Edwards curve.
pub uninterp spec fn edwards_decompresses(bytes: Seq<u8>) -> bool;

/// A curve point together with the 32-byte compressed encoding it was decoded from. Only
/// `edwards_decompress` builds one, so the point is always the decoding of its encoding.
pub struct CurvePoint {
    point: EdwardsPoint,
    encoding: [u8; 32],
}

impl View for CurvePoint {
    type V = Seq<u8>;

    /// The encoding the point was decoded from.
    closed spec fn view(&self) -> Seq<u8> {
        self.encoding@
    }
}

/// Decodes a compressed Edwards point with `CompressedEdwardsY::decompress`; it yields a
/// point exactly when the bytes name one, and keeps the bytes beside it.
#[verifier::external_body]
pub(crate) fn edwards_decompress(bytes: [u8; 32]) -> (r: Option<CurvePoint>)
    ensures
        r is Some <==> edwards_decompresses(bytes@),
        r matches Some(p) ==> p@ == bytes@,
{
    match CompressedEdwardsY(bytes).decompress() {
        Some(point) => Some(CurvePoint { point, encoding: bytes }),
        None => None,
    }
}

/// Whether the point that 32 compressed bytes decode to is the curve's identity.
pub uninterp spec fn edwards_identity(encoding: Seq<u8>) -> bool;

/// Tests a decoded point with `IsIdentity::is_identity`, a constant-time comparison with the
/// identity; the answer is the named test of the point's encoding.
#[verifier::external_body]
pub(crate) fn edwards_is_identity(p: &CurvePoint) -> (r: bool)
    ensures
        r == edwards_identity(p@),
{
    p.point.is_identity()
}

/// Whether the point that 32 compressed bytes decode to lies in the prime-order subgroup.
pub uninterp spec fn edwards_torsion_free(encoding: Seq<u8>) -> bool;

/// Tests a decoded point with `EdwardsPoint::is_torsion_free`; the answer is the named test
/// of the point's encoding.
#[verifier::external_body]
pub(crate) fn edwards_is_torsion_free(p: &CurvePoint) -> (r: bool)
    ensures
        r == edwards_torsion_free(p@),
{
    p.point.is_torsion_free()
}

/// The state of a running SPAKE2 exchange over the Ed25519 group. Verus cannot declare the
/// `spake2` state type, whose parameter is bound by a trait of that crate, so it is held here
/// out of Verus's sight and only the calls below touch it.
#[verifier::external_body]
pub struct Spake2State(Spake2<Ed25519Group>);

/// A running SPAKE2 exchange and the side it plays: the server (side B) or the client
/// (side A). Only the two start calls below build one.
pub struct Exchange {
    state: Spake2State,
    server: bool,
}

impl Exchange {
    /// Whether the exchange plays the server's side.
    pub closed spec fn is_server(&self) -> bool {
        self.server
    }
}

/// A key agreed by SPAKE2, wiped from memory when dropped. Verus cannot declare `Zeroizing`,
/// whose parameter is bound by a trait of `zeroize`, so the key is held here out of sight.
#[verifier::external_body]
pub struct PakeKey(Zeroizing<Vec<u8>>);

#[verifier::external_type_specification]
#[verifier::external_body]
pub struct ExSpake2Error(spake2::Error);

/// Starts SPAKE2 on side A with `Spake2::start_a`, drawing a fresh scalar from the operating
/// system. Its message is the side byte 'A' followed by a 32-byte compressed point; the
/// point depends on that random scalar and is not stated.
#[verifier::external_body]
pub(crate) fn spake2_start_a(password: &[u8], id_a: &[u8], id_b: &[u8]) -> (r: (Exchange, Vec<u8>))
    ensures
        r.1@.len() == 33,
        r.1@[0] == 0x41u8,
        !r.0.is_server(),
{
    let (state, message) = Spake2::<Ed25519Group>::start_a(
        &Password::new(password),
        &Identity::new(id_a),
        &Identity::new(id_b),
    );
    (Exchange { state: Spake2State(state), server: false }, message)
}

/// Starts SPAKE2 on side B with `Spake2::start_b`; as for side A, with side byte 'B'.
#[verifier::external_body]
pub(crate) fn spake2_start_b(password: &[u8], id_a: &[u8], id_b: &[u8]) -> (r: (Exchange, Vec<u8>))
    ensures
        r.1@.len() == 33,
        r.1@[0] == 0x42u8,
        r.0.is_server(),
{
    let (state, message) = Spake2::<Ed25519Group>::start_b(
        &Password::new(password),
        &Identity::new(id_a),
        &Identity::new(id_b),
    );
    (Exchange { state: Spake2State(state), server: true }, message)
}

/// Completes SPAKE2 with `Spake2::finish`. It refuses exactly a message of the wrong length
/// (`WrongLength`), one whose first byte is not the peer's side byte, 'A' for the server and
/// 'B' for the client (`BadSide`), and one whose point does not decode with
/// `CompressedEdwardsY::decompress` (`CorruptMessage`); every other message yields a key.
/// The key is a 32-byte SHA-256 transcript hash, wrapped with `Zeroizing::new`; its bytes
/// depend on the random scalars of both sides and are not stated.
#[verifier::external_body]
pub(crate) fn spake2_finish(exchange: Exchange, message: &[u8]) -> (r: Result<PakeKey, spake2::Error>)
    ensures
        r is Ok <==> (message@.len() == 33 && message@[0] == (if exchange.is_server() {
            0x41u8
        } else {
            0x42u8
        }) && edwards_decompresses(message@.subrange(1, 33))),
{
    match exchange.state.0.finish(message) {
        Ok(k) => Ok(PakeKey(Zeroizing::new(k))),
        Err(e) => Err(e),
    }
}

impl PakeKey {
    /// The key bytes, borrowed through `Zeroizing`'s `Deref`. They are random, so nothing is
    /// stated of them.
    #[verifier::external_body]
    pub fn bytes(&self) -> &[u8] {
        self.0.as_slice()
    }
}

} // verus!
