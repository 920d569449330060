//! Identities, keys and addresses of the control connection.
use vstd::prelude::*;
use vstd::string::StringSliceAdditionalSpecFns;
use crate::crypto::{
    hex_bytes, hex_decode, hex_encode, hex_text, os_random_bytes, sha256, sha256_of,
};
use crate::text::push_char;

verus! {

/// Why a key was refused.
#[derive(Debug, Clone, Copy, PartialEq, Eq, Structural)]
pub enum KeyError {
    /// The text is not hexadecimal of even length.
    InvalidHex,
    /// The key is not 32 bytes long.
    InvalidKey,
}

/// 32 fresh random bytes from the operating system, as 64 lowercase hex digits.
pub fn random_hex() -> (r: String)
    ensures
        exists|b: Seq<u8>| b.len() == 32 && r@ == hex_text(b),
{
    let b = os_random_bytes();
    let r = hex_encode(&b);
    assert(b@.len() == 32);
    r
}

/// What `key` returns for a hex string: the 32 bytes it encodes, or the reason it is refused.
pub open spec fn key_of(text: Seq<u8>) -> Result<Seq<u8>, KeyError> {
    match hex_bytes(text) {
        None => Err(KeyError::InvalidHex),
        Some(b) => if b.len() == 32 {
            Ok(b)
        } else {
            Err(KeyError::InvalidKey)
        },
    }
}

/// Decodes a 256-bit key written as hex.
pub fn key(s: &str) -> (r: Result<[u8; 32], KeyError>)
    ensures
        match key_of(s.spec_bytes()) {
            Ok(b) => r is Ok && r->Ok_0@ == b,
            Err(e) => r == Err::<[u8; 32], KeyError>(e),
        },
{
    let bytes = match hex_decode(s) {
        Ok(b) => b,
        Err(_) => {
            return Err(KeyError::InvalidHex);
        },
    };
    if bytes.len() != 32 {
        return Err(KeyError::InvalidKey);
    }
    let mut k = [0u8; 32];
    let mut i: usize = 0;
    while i < 32
        invariant
            i <= 32,
            bytes@.len() == 32,
            forall|j: int| 0 <= j < i ==> k@[j] == bytes@[j],
        decreases 32 - i,
    {
        k[i] = bytes[i];
        i += 1;
    }
    assert(k@ =~= bytes@);
    Ok(k)
}

/// The certificate fingerprint shown to users and used for pinning: SHA-256 in lowercase hex.
pub fn certificate_fingerprint(certificate: &[u8]) -> (r: String)
    ensures
        r@ == hex_text(sha256_of(certificate@)),
{
    let digest = sha256(certificate);
    hex_encode(&digest)
}

/// An IP address as plain numbers: four octets, or eight 16-bit groups.
#[derive(Debug, Clone, Copy)]
pub enum IpAddress {
    V4([u8; 4]),
    V6([u16; 8]),
}

/// 10/8, 172.16/12, 192.168/16, loopback 127/8 or link-local 169.254/16.
pub open spec fn local_v4(o: Seq<u8>) -> bool {
    ||| o[0] == 10
    ||| (o[0] == 172 && 16 <= o[1] <= 31)
    ||| (o[0] == 192 && o[1] == 168)
    ||| o[0] == 127
    ||| (o[0] == 169 && o[1] == 254)
}

/// Loopback ::1, unique local fc00::/7, link-local fe80::/10, or an IPv4-mapped local address.
pub open spec fn local_v6(g: Seq<u16>) -> bool {
    ||| (g[0] == 0 && g[1] == 0 && g[2] == 0 && g[3] == 0 && g[4] == 0 && g[5] == 0 && g[6] == 0
        && g[7] == 1)
    ||| 0xfc00 <= g[0] <= 0xfdff
    ||| 0xfe80 <= g[0] <= 0xfebf
    ||| (g[0] == 0 && g[1] == 0 && g[2] == 0 && g[3] == 0 && g[4] == 0 && g[5] == 0xffff
        && local_v4(seq![(g[6] / 256) as u8, (g[6] % 256) as u8, (g[7] / 256) as u8, (g[7] % 256) as u8]))
}

fn local_octets(o: [u8; 4]) -> (r: bool)
    ensures
        r == local_v4(o@),
{
    o[0] == 10 || (o[0] == 172 && 16 <= o[1] && o[1] <= 31) || (o[0] == 192 && o[1] == 168)
        || o[0] == 127 || (o[0] == 169 && o[1] == 254)
}

/// Whether a control peer is on a private, loopback or link-local network, the only peers
/// the default transport admits (USB tethering included).
pub fn local_address(ip: IpAddress) -> (r: bool)
    ensures
        r == match ip {
            IpAddress::V4(o) => local_v4(o@),
            IpAddress::V6(g) => local_v6(g@),
        },
{
    match ip {
        IpAddress::V4(o) => local_octets(o),
        IpAddress::V6(g) => {
            if g[0] == 0 && g[1] == 0 && g[2] == 0 && g[3] == 0 && g[4] == 0 && g[5] == 0 && g[6]
                == 0 && g[7] == 1 {
                return true;
            }
            if 0xfc00 <= g[0] && g[0] <= 0xfdff {
                return true;
            }
            if 0xfe80 <= g[0] && g[0] <= 0xfebf {
                return true;
            }
            if g[0] == 0 && g[1] == 0 && g[2] == 0 && g[3] == 0 && g[4] == 0 && g[5] == 0xffff {
                let o: [u8; 4] = [
                    (g[6] / 256) as u8,
                    (g[6] % 256) as u8,
                    (g[7] / 256) as u8,
                    (g[7] % 256) as u8,
                ];
                assert(o@ =~= seq![
                    (g[6] / 256) as u8,
                    (g[6] % 256) as u8,
                    (g[7] / 256) as u8,
                    (g[7] % 256) as u8,
                ]);
                return local_octets(o);
            }
            false
        },
    }
}

/// Letters and digits of ASCII keep their place in a host name; everything else is a dash.
pub open spec fn host_char(c: char) -> char {
    if ('a' <= c <= 'z') || ('A' <= c <= 'Z') || ('0' <= c <= '9') {
        c
    } else {
        '-'
    }
}

/// The mDNS host name announced for a computer name.
pub open spec fn host_name(name: Seq<char>) -> Seq<char> {
    name.map_values(|c: char| host_char(c)) + seq!['.', 'l', 'o', 'c', 'a', 'l', '.']
}

/// Law: the announced host name keeps the computer name's shape. It is the name followed by
/// ".local.", position for position: each ASCII letter or digit stands unchanged where it
/// stood, and every other character is a dash.
pub proof fn lemma_host_name_shape(name: Seq<char>)
    ensures
        host_name(name).len() == name.len() + 7,
        forall|i: int|
            0 <= i < name.len() ==> {
                let c = #[trigger] name[i];
                if ('a' <= c <= 'z') || ('A' <= c <= 'Z') || ('0' <= c <= '9') {
                    host_name(name)[i] == c
                } else {
                    host_name(name)[i] == '-'
                }
            },
        host_name(name).subrange(name.len() as int, name.len() as int + 7) == ".local."@,
{
    reveal_strlit(".local.");
    let h = host_name(name);
    assert forall|i: int| 0 <= i < name.len() implies #[trigger] h[i] == host_char(name[i]) by {}
    assert(h.subrange(name.len() as int, name.len() as int + 7) =~= ".local."@);
}

/// The mDNS host name for a computer name: every character other than an ASCII letter or
/// digit becomes a dash, then ".local." follows.
pub fn mdns_hostname(name: &str) -> (r: String)
    ensures
        r@ == host_name(name@),
{
    let mut r = String::new();
    for c in it: name.chars()
        invariant
            it.seq() == name@,
            r@ == name@.take(it.index() as int).map_values(|c: char| host_char(c)),
    {
        let h = if ('a' <= c && c <= 'z') || ('A' <= c && c <= 'Z') || ('0' <= c && c <= '9') {
            c
        } else {
            '-'
        };
        push_char(&mut r, h);
        assert(name@.take(it.index() + 1) =~= name@.take(it.index() as int).push(c));
        assert(r@ =~= name@.take(it.index() + 1).map_values(|c: char| host_char(c)));
    }
    assert(name@.take(name@.len() as int) =~= name@);
    push_char(&mut r, '.');
    push_char(&mut r, 'l');
    push_char(&mut r, 'o');
    push_char(&mut r, 'c');
    push_char(&mut r, 'a');
    push_char(&mut r, 'l');
    push_char(&mut r, '.');
    assert(r@ =~= host_name(name@));
    r
}

} // verus!
