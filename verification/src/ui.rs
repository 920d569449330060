//! What the desktop interface decides: its language, the tray's title and icon, the pairing
//! countdown and when a state change is announced. Drawing it is the toolkit's work.
use vstd::prelude::*;
use crate::control::PAIRING_WINDOW_US;
use crate::text::str_eq;

verus! {

/// Whether `c` is white space in Unicode's sense, as `char::is_whitespace` reads it.
pub open spec fn is_space(c: char) -> bool {
    let u = c as u32;
    ||| 0x09 <= u <= 0x0d
    ||| u == 0x20
    ||| u == 0x85
    ||| u == 0xa0
    ||| u == 0x1680
    ||| 0x2000 <= u <= 0x200a
    ||| u == 0x2028
    ||| u == 0x2029
    ||| u == 0x202f
    ||| u == 0x205f
    ||| u == 0x3000
}

/// `s` without its leading white space.
pub open spec fn trim_start(s: Seq<char>) -> Seq<char>
    decreases s.len(),
{
    if s.len() > 0 && is_space(s[0]) {
        trim_start(s.skip(1))
    } else {
        s
    }
}

/// An ASCII capital as a small letter; other characters are kept.
pub open spec fn ascii_lower(c: char) -> char {
    if 'A' <= c <= 'Z' {
        ((c as u32) + 32) as char
    } else {
        c
    }
}

/// Whether `s` starts with the two small ASCII letters `a` and `b`, in either case.
pub open spec fn starts_with_letters(s: Seq<char>, a: char, b: char) -> bool {
    s.len() >= 2 && ascii_lower(s[0]) == a && ascii_lower(s[1]) == b
}

/// The interface language for a language setting such as `pt_BR.UTF-8`: surrounding white
/// space and case are ignored, and the first two letters choose among Brazilian Portuguese,
/// Spanish, Russian, simplified Chinese and Japanese, with English for anything else. (Only
/// ASCII capitals lowercase to these ASCII letters, so comparing after ASCII lowercasing is
/// comparing after full lowercasing.)
pub open spec fn language_of(raw: Seq<char>) -> Seq<char> {
    let t = trim_start(raw);
    if starts_with_letters(t, 'p', 't') {
        "pt-BR"@
    } else if starts_with_letters(t, 'e', 's') {
        "es"@
    } else if starts_with_letters(t, 'r', 'u') {
        "ru"@
    } else if starts_with_letters(t, 'z', 'h') {
        "zh-CN"@
    } else if starts_with_letters(t, 'j', 'a') {
        "ja"@
    } else {
        "en"@
    }
}

fn space(c: char) -> (r: bool)
    ensures
        r == is_space(c),
{
    let u = c as u32;
    (0x09 <= u && u <= 0x0d) || u == 0x20 || u == 0x85 || u == 0xa0 || u == 0x1680 || (0x2000
        <= u && u <= 0x200a) || u == 0x2028 || u == 0x2029 || u == 0x202f || u == 0x205f || u
        == 0x3000
}

fn lower(c: char) -> (r: char)
    ensures
        r == ascii_lower(c),
{
    if 'A' <= c && c <= 'Z' {
        ((c as u8) + 32) as char
    } else {
        c
    }
}

proof fn lemma_trim_start(s: Seq<char>, k: int)
    requires
        0 <= k <= s.len(),
        forall|j: int| 0 <= j < k ==> is_space(s[j]),
        k == s.len() || !is_space(s[k]),
    ensures
        trim_start(s) == s.skip(k),
    decreases k,
{
    if k == 0 {
        assert(s.skip(0) =~= s);
    } else {
        let t = s.skip(1);
        assert forall|j: int| 0 <= j < k - 1 implies is_space(t[j]) by {
            assert(t[j] == s[j + 1]);
        }
        if k < s.len() {
            assert(t[k - 1] == s[k]);
        }
        lemma_trim_start(t, k - 1);
        assert(t.skip(k - 1) =~= s.skip(k));
    }
}

/// The interface language code for a language setting (see `language_of`).
pub fn language_code(raw: &str) -> (r: &'static str)
    ensures
        r@ == language_of(raw@),
{
    let mut leading = true;
    let ghost mut k: int = 0;
    let mut got: usize = 0;
    let mut a: char = ' ';
    let mut b: char = ' ';
    for c in it: raw.chars()
        invariant
            it.seq() == raw@,
            0 <= k <= it.index(),
            leading ==> k == it.index(),
            !leading ==> k < it.index() && !is_space(raw@[k]),
            forall|j: int| 0 <= j < k ==> is_space(raw@[j]),
            got == (if it.index() - k < 2 {
                it.index() - k
            } else {
                2
            }),
            got >= 1 ==> a == raw@[k],
            got >= 2 ==> b == raw@[k + 1],
    {
        if leading && space(c) {
            proof {
                k = k + 1;
            }
        } else {
            leading = false;
            if got == 0 {
                a = c;
                got = 1;
            } else if got == 1 {
                b = c;
                got = 2;
            }
        }
    }
    proof {
        lemma_trim_start(raw@, k);
    }
    let x = lower(a);
    let y = lower(b);
    if got == 2 && x == 'p' && y == 't' {
        "pt-BR"
    } else if got == 2 && x == 'e' && y == 's' {
        "es"
    } else if got == 2 && x == 'r' && y == 'u' {
        "ru"
    } else if got == 2 && x == 'z' && y == 'h' {
        "zh-CN"
    } else if got == 2 && x == 'j' && y == 'a' {
        "ja"
    } else {
        "en"
    }
}

/// The languages the interface offers, in the order of its language list.
pub open spec fn languages() -> Seq<Seq<char>> {
    seq!["pt-BR"@, "en"@, "es"@, "ru"@, "zh-CN"@, "ja"@]
}

/// The language at `index` of the language list, if there is one.
pub fn language_at(index: usize) -> (r: Option<&'static str>)
    ensures
        index < 6 ==> r is Some && r->Some_0@ == languages()[index as int],
        index >= 6 ==> r is None,
{
    if index == 0 {
        Some("pt-BR")
    } else if index == 1 {
        Some("en")
    } else if index == 2 {
        Some("es")
    } else if index == 3 {
        Some("ru")
    } else if index == 4 {
        Some("zh-CN")
    } else if index == 5 {
        Some("ja")
    } else {
        None
    }
}

/// Where `code` stands in the language list; English's place when it is not there.
pub fn language_index(code: &str) -> (r: usize)
    ensures
        r < 6,
        languages().contains(code@) ==> languages()[r as int] == code@,
        !languages().contains(code@) ==> r == 1,
{
    let mut i: usize = 0;
    while i < 6
        invariant
            i <= 6,
            forall|j: int| 0 <= j < i ==> languages()[j] != code@,
        decreases 6 - i,
    {
        let l = match language_at(i) {
            Some(l) => l,
            None => {
                return 1;
            },
        };
        if str_eq(l, code) {
            return i;
        }
        i += 1;
    }
    assert(!languages().contains(code@));
    1
}

/// The tray's title: it says when the microphone is muted.
pub fn tray_title(muted: bool) -> (r: &'static str)
    ensures
        r@ == (if muted {
            "LinMic — muted"@
        } else {
            "LinMic"@
        }),
{
    if muted {
        "LinMic — muted"
    } else {
        "LinMic"
    }
}

/// The tray's icon name: a muted or a live microphone.
pub fn tray_icon(muted: bool) -> (r: &'static str)
    ensures
        r@ == (if muted {
            "microphone-sensitivity-muted-symbolic"@
        } else {
            "audio-input-microphone-symbolic"@
        }),
{
    if muted {
        "microphone-sensitivity-muted-symbolic"
    } else {
        "audio-input-microphone-symbolic"
    }
}

/// Whole seconds a pairing code shown `elapsed_secs` seconds ago stays valid; 0 once expired.
pub fn pairing_seconds_left(elapsed_secs: u64) -> (r: u64)
    ensures
        r == (if elapsed_secs < PAIRING_WINDOW_US / 1_000_000 {
            PAIRING_WINDOW_US / 1_000_000 - elapsed_secs
        } else {
            0
        }),
{
    (PAIRING_WINDOW_US / 1_000_000).saturating_sub(elapsed_secs)
}

/// Whether a new daemon state is announced: it differs from a known earlier state and the
/// microphone just became idle or started streaming.
pub fn announce_state(last: &str, state: &str) -> (r: bool)
    ensures
        r == (last@.len() > 0 && state@ != last@ && (state@ == "IDLE"@ || state@ == "STREAMING"@)),
{
    last.unicode_len() > 0 && !str_eq(state, last) && (str_eq(state, "IDLE") || str_eq(
        state,
        "STREAMING",
    ))
}

} // verus!
