//! Small text helpers that the configuration and control logic share.
use vstd::prelude::*;
use vstd::string::StringSliceAdditionalSpecFns;
use vstd::utf8::{encode_utf8, encode_utf8_decode_utf8};

verus! {

/// Whether two strings hold the same characters.
pub fn str_eq(a: &str, b: &str) -> (r: bool)
    ensures
        r == (a@ == b@),
{
    let x = a.as_bytes();
    let y = b.as_bytes();
    proof {
        encode_utf8_decode_utf8(a@);
        encode_utf8_decode_utf8(b@);
    }
    if x.len() != y.len() {
        return false;
    }
    let mut i: usize = 0;
    while i < x.len()
        invariant
            i <= x@.len(),
            x@.len() == y@.len(),
            x@ == encode_utf8(a@),
            y@ == encode_utf8(b@),
            forall|j: int| 0 <= j < i ==> x@[j] == y@[j],
        decreases x@.len() - i,
    {
        if x[i] != y[i] {
            assert(x@ != y@);
            return false;
        }
        i += 1;
    }
    assert(x@ =~= y@);
    true
}

/// Appends one character to `s`, with `String::push`.
#[verifier::external_body]
pub(crate) fn push_char(s: &mut String, c: char)
    ensures
        final(s)@ == old(s)@.push(c),
{
    s.push(c);
}

/// Appends the bytes of `s` to `v`.
pub fn append_bytes(v: &mut Vec<u8>, s: &[u8])
    ensures
        final(v)@ == old(v)@ + s@,
{
    let ghost start = v@;
    let mut i: usize = 0;
    while i < s.len()
        invariant
            i <= s@.len(),
            v@ == start + s@.take(i as int),
        decreases s@.len() - i,
    {
        v.push(s[i]);
        i += 1;
        assert(v@ =~= start + s@.take(i as int));
    }
    assert(s@.take(s@.len() as int) =~= s@);
}

/// The number that decimal digits spell, most significant first.
pub open spec fn digits_value(d: Seq<u8>) -> int
    decreases d.len(),
{
    if d.len() == 0 {
        0
    } else {
        digits_value(d.drop_last()) * 10 + (d.last() - 48)
    }
}

/// Whether every byte is an ASCII digit.
pub open spec fn all_digits(d: Seq<u8>) -> bool {
    forall|i: int| 0 <= i < d.len() ==> 48 <= #[trigger] d[i] <= 57
}

/// What `str::parse` gives for an unsigned integer type whose largest value is `max`: an
/// optional `+`, then at least one digit and nothing else, for a value up to `max`.
pub open spec fn unsigned_of(text: Seq<u8>, max: int) -> Option<int> {
    let d = if text.len() > 0 && text[0] == 43 {
        text.skip(1)
    } else {
        text
    };
    if d.len() > 0 && all_digits(d) && digits_value(d) <= max {
        Some(digits_value(d))
    } else {
        None
    }
}

proof fn lemma_digits_value_nonneg(d: Seq<u8>)
    requires
        all_digits(d),
    ensures
        digits_value(d) >= 0,
    decreases d.len(),
{
    if d.len() > 0 {
        lemma_digits_value_nonneg(d.drop_last());
    }
}

proof fn lemma_digits_value_grows(d: Seq<u8>, i: int)
    requires
        all_digits(d),
        0 <= i <= d.len(),
    ensures
        digits_value(d.take(i)) <= digits_value(d),
    decreases d.len() - i,
{
    if i < d.len() {
        lemma_digits_value_grows(d, i + 1);
        assert(d.take(i + 1).drop_last() =~= d.take(i));
        lemma_digits_value_nonneg(d.take(i));
    } else {
        assert(d.take(i) =~= d);
    }
}

/// Reads an unsigned decimal number no larger than `max`, as `str::parse` reads one.
fn parse_unsigned(text: &str, max: u64) -> (r: Option<u64>)
    requires
        max >= 9,
    ensures
        r matches Some(v) ==> unsigned_of(text.spec_bytes(), max as int) == Some(v as int),
        r is None ==> unsigned_of(text.spec_bytes(), max as int) is None,
{
    let b = text.as_bytes();
    let start: usize = if b.len() > 0 && b[0] == 43u8 {
        1
    } else {
        0
    };
    let ghost d = b@.skip(start as int);
    assert(d == (if b@.len() > 0 && b@[0] == 43 {
        b@.skip(1)
    } else {
        b@
    })) by {
        if start == 0 {
            assert(b@.skip(0) =~= b@);
        }
    }
    if b.len() <= start {
        return None;
    }
    let mut acc: u64 = 0;
    let mut i: usize = start;
    while i < b.len()
        invariant
            start <= i <= b@.len(),
            d == b@.skip(start as int),
            b@ == text.spec_bytes(),
            d == (if b@.len() > 0 && b@[0] == 43 {
                b@.skip(1)
            } else {
                b@
            }),
            d.len() > 0,
            all_digits(d.take(i - start)),
            acc as int == digits_value(d.take(i - start)),
            acc <= max,
            max >= 9,
        decreases b@.len() - i,
    {
        let c = b[i];
        proof {
            assert(d.take(i - start + 1).drop_last() =~= d.take(i - start));
            assert(d.take(i - start + 1).last() == c);
        }
        if c < 48u8 || c > 57u8 {
            proof {
                assert(d[i - start] == c);
            }
            return None;
        }
        let digit = (c - 48u8) as u64;
        if acc > (max - digit) / 10 {
            proof {
                let t = d.take(i - start + 1);
                assert(acc * 10 + digit > max) by (nonlinear_arith)
                    requires
                        acc > (max - digit) / 10,
                        digit <= max,
                ;
                assert(digits_value(t) > max);
                if all_digits(d) {
                    lemma_digits_value_grows(d, i - start + 1);
                }
            }
            return None;
        }
        assert(acc * 10 + digit <= max) by (nonlinear_arith)
            requires
                acc <= (max - digit) / 10,
                digit <= max,
        ;
        acc = acc * 10 + digit;
        i += 1;
    }
    assert(d.take(i - start) =~= d);
    Some(acc)
}

/// Reads a `u64` as `str::parse::<u64>` does.
pub fn parse_u64(text: &str) -> (r: Option<u64>)
    ensures
        r matches Some(v) ==> unsigned_of(text.spec_bytes(), u64::MAX as int) == Some(v as int),
        r is None ==> unsigned_of(text.spec_bytes(), u64::MAX as int) is None,
{
    parse_unsigned(text, u64::MAX)
}

/// Reads a `u32` as `str::parse::<u32>` does.
pub fn parse_u32(text: &str) -> (r: Option<u32>)
    ensures
        r matches Some(v) ==> unsigned_of(text.spec_bytes(), u32::MAX as int) == Some(v as int),
        r is None ==> unsigned_of(text.spec_bytes(), u32::MAX as int) is None,
{
    match parse_unsigned(text, u32::MAX as u64) {
        Some(v) => Some(v as u32),
        None => None,
    }
}

/// Reads a `bool` as `str::parse::<bool>` does: exactly `true` or `false`.
pub fn parse_bool(text: &str) -> (r: Option<bool>)
    ensures
        r == (if text@ == "true"@ {
            Some(true)
        } else if text@ == "false"@ {
            Some(false)
        } else {
            None::<bool>
        }),
{
    if str_eq(text, "true") {
        Some(true)
    } else if str_eq(text, "false") {
        Some(false)
    } else {
        None
    }
}

} // verus!
