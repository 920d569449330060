//! Global shortcuts through the desktop portal: what a shortcut event asks of the daemon, and
//! the object path on which the portal answers a request. The D-Bus calls are the caller's.
use vstd::prelude::*;
use crate::control::LocalCommand;
use crate::text::{push_char, str_eq};

verus! {

/// The command that a shortcut event sends in a shortcut mode (`toggle`, `push-to-talk` or
/// `push-to-mute`): toggle mutes or unmutes on press and ignores release; push-to-talk
/// unmutes while held; push-to-mute mutes while held. Any other mode mutes.
pub open spec fn shortcut_command_of(mode: Seq<char>, active: bool) -> Option<LocalCommand> {
    if mode == "toggle"@ {
        if active {
            Some(LocalCommand::ToggleMute)
        } else {
            None
        }
    } else if (mode == "push-to-talk"@ && active) || (mode == "push-to-mute"@ && !active) {
        Some(LocalCommand::Unmute)
    } else {
        Some(LocalCommand::Mute)
    }
}

/// The command to send when the shortcut is pressed (`active`) or released; `None` when the
/// event asks nothing.
pub fn shortcut_command(mode: &str, active: bool) -> (r: Option<LocalCommand>)
    ensures
        r == shortcut_command_of(mode@, active),
{
    if str_eq(mode, "toggle") {
        if active {
            Some(LocalCommand::ToggleMute)
        } else {
            None
        }
    } else if (str_eq(mode, "push-to-talk") && active) || (str_eq(mode, "push-to-mute") && !active) {
        Some(LocalCommand::Unmute)
    } else {
        Some(LocalCommand::Mute)
    }
}

/// Whether the microphone starts muted in this mode: push-to-talk is silent until pressed.
pub fn starts_muted(mode: &str) -> (r: bool)
    ensures
        r == (mode@ == "push-to-talk"@),
{
    str_eq(mode, "push-to-talk")
}

/// `s` without its leading colons.
pub open spec fn strip_colons(s: Seq<char>) -> Seq<char>
    decreases s.len(),
{
    if s.len() > 0 && s[0] == ':' {
        strip_colons(s.skip(1))
    } else {
        s
    }
}

/// Each dot of `s` replaced by an underscore.
pub open spec fn dots_to_underscores(s: Seq<char>) -> Seq<char> {
    s.map_values(|c: char| if c == '.' { '_' } else { c })
}

/// The object path of the portal request with handle `token` from the connection whose
/// unique bus name is `unique`.
pub open spec fn request_path_of(unique: Seq<char>, token: Seq<char>) -> Seq<char> {
    "/org/freedesktop/portal/desktop/request/"@ + dots_to_underscores(strip_colons(unique))
        + seq!['/'] + token
}

proof fn lemma_strip_colons(s: Seq<char>, k: int)
    requires
        0 <= k <= s.len(),
        forall|j: int| 0 <= j < k ==> s[j] == ':',
        k == s.len() || s[k] != ':',
    ensures
        strip_colons(s) == s.skip(k),
    decreases k,
{
    if k == 0 {
        assert(s.skip(0) =~= s);
    } else {
        let t = s.skip(1);
        assert forall|j: int| 0 <= j < k - 1 implies t[j] == ':' by {
            assert(t[j] == s[j + 1]);
        }
        if k < s.len() {
            assert(t[k - 1] == s[k]);
        }
        lemma_strip_colons(t, k - 1);
        assert(t.skip(k - 1) =~= s.skip(k));
    }
}

/// Appends the characters of `s` to `r`.
fn push_str(r: &mut String, s: &str)
    ensures
        final(r)@ == old(r)@ + s@,
{
    let ghost start = r@;
    for c in it: s.chars()
        invariant
            it.seq() == s@,
            r@ == start + s@.take(it.index() as int),
    {
        push_char(r, c);
        assert(s@.take(it.index() + 1) =~= s@.take(it.index() as int).push(c));
        assert(r@ =~= start + s@.take(it.index() + 1));
    }
    assert(s@.take(s@.len() as int) =~= s@);
}

/// The path on which the portal will answer the request `token`: the caller's unique bus
/// name without its leading colon and with dots as underscores, then the token.
pub fn portal_request_path(unique: &str, token: &str) -> (r: String)
    ensures
        r@ == request_path_of(unique@, token@),
{
    let mut r = String::new();
    push_str(&mut r, "/org/freedesktop/portal/desktop/request/");
    let ghost prefix = r@;
    let mut leading = true;
    let ghost mut k: int = 0;
    for c in it: unique.chars()
        invariant
            it.seq() == unique@,
            0 <= k <= it.index(),
            leading ==> k == it.index(),
            !leading ==> k < it.index() && unique@[k] != ':',
            forall|j: int| 0 <= j < k ==> unique@[j] == ':',
            r@ == prefix + dots_to_underscores(unique@.subrange(k, it.index() as int)),
    {
        let ghost i = it.index() as int;
        if leading && c == ':' {
            proof {
                k = k + 1;
            }
        } else {
            leading = false;
            push_char(&mut r, if c == '.' { '_' } else { c });
        }
        assert(dots_to_underscores(unique@.subrange(k, i + 1)) =~= (if k == i + 1 {
            Seq::<char>::empty()
        } else {
            dots_to_underscores(unique@.subrange(k, i)).push(if c == '.' { '_' } else { c })
        }));
    }
    proof {
        lemma_strip_colons(unique@, k);
        assert(unique@.subrange(k, unique@.len() as int) =~= unique@.skip(k));
    }
    push_char(&mut r, '/');
    push_str(&mut r, token);
    assert(r@ =~= request_path_of(unique@, token@));
    r
}

} // verus!
