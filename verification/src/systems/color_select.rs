//! The name entry on the colour selection screen.

use vstd::prelude::*;

use crate::text::push_char;
use vstd::string::StrSliceExecFns;

verus! {

/// The longest name that can be typed.
pub const USERNAME_MAX_LEN: usize = 20;

/// The character typed for a key: a letter in upper case while shift is
/// held, anything else as it is.
pub open spec fn typed_char(c: char, shift: bool) -> char {
    if shift && 'a' <= c && c <= 'z' {
        ((c as int) - 32) as char
    } else {
        c
    }
}

/// The number of bytes a character takes in UTF-8.
pub open spec fn utf8_width(c: char) -> nat {
    if (c as int) < 0x80 {
        1
    } else if (c as int) < 0x800 {
        2
    } else if (c as int) < 0x10000 {
        3
    } else {
        4
    }
}

/// The number of bytes a text takes in UTF-8, which is what `str::len`
/// counts.
pub open spec fn utf8_len(s: Seq<char>) -> nat
    decreases s.len(),
{
    if s.len() == 0 {
        0
    } else {
        utf8_len(s.drop_last()) + utf8_width(s.last())
    }
}

/// Whether a name of `s` still takes fewer bytes than the limit.
fn has_room(s: &str) -> (r: bool)
    ensures
        r == (utf8_len(s@) < USERNAME_MAX_LEN),
{
    let n = s.unicode_len();
    let mut bytes: usize = 0;
    let mut i: usize = 0;
    assert(s@.take(0) =~= Seq::<char>::empty());
    while i < n
        invariant
            n == s@.len(),
            i <= n,
            bytes == utf8_len(s@.take(i as int)),
            bytes < USERNAME_MAX_LEN,
        decreases n - i,
    {
        let c = s.get_char(i);
        let code: u32 = c as u32;
        let w: usize = if code < 0x80 {
            1
        } else if code < 0x800 {
            2
        } else if code < 0x10000 {
            3
        } else {
            4
        };
        assert(s@.take(i + 1).drop_last() =~= s@.take(i as int));
        assert(s@.take(i + 1).last() == c);
        bytes = bytes + w;
        i = i + 1;
        if bytes >= USERNAME_MAX_LEN {
            proof {
                lemma_utf8_len_prefix(s@, i as int);
            }
            return false;
        }
    }
    assert(s@.take(n as int) =~= s@);
    true
}

/// A text takes at least as many bytes as any of its prefixes.
proof fn lemma_utf8_len_prefix(s: Seq<char>, k: int)
    requires
        0 <= k <= s.len(),
    ensures
        utf8_len(s.take(k)) <= utf8_len(s),
    decreases s.len() - k,
{
    if k < s.len() {
        lemma_utf8_len_prefix(s, k + 1);
        assert(s.take(k + 1).drop_last() =~= s.take(k));
    } else {
        assert(s.take(k) =~= s);
    }
}

/// Adds the character of a pressed key to the name, unless the name
/// already takes as many bytes as it may.
pub fn push_username_char(value: &mut String, c: char, shift: bool)
    requires
        (c as int) < 128,
    ensures
        final(value)@ == if utf8_len(old(value)@) < 20 {
            old(value)@.push(typed_char(c, shift))
        } else {
            old(value)@
        },
{
    if has_room(value.as_str()) {
        let final_char = if shift && 'a' <= c && c <= 'z' {
            ((c as u8) - 32) as char
        } else {
            c
        };
        push_char(value, final_char);
    }
}

/// The content of the sign-in profile's names: the preferred user name,
/// when it has one, and the full name.
pub open spec fn profile_names(profile: Option<(Option<String>, String)>) -> Option<(Option<Seq<char>>, Seq<char>)> {
    match profile {
        Some((Some(p), n)) => Some((Some(p@), n@)),
        Some((None, n)) => Some((None, n@)),
        None => None,
    }
}

/// The name the screen opens with: the name already typed, else the
/// profile's preferred user name, else its full name, and `Player` when
/// that is missing or empty.
pub open spec fn opening_name(current: Seq<char>, profile: Option<(Option<Seq<char>>, Seq<char>)>) -> Seq<char> {
    if current.len() > 0 {
        current
    } else {
        let candidate = match profile {
            Some((Some(p), _)) => p,
            Some((None, n)) => n,
            None => Seq::empty(),
        };
        if candidate.len() > 0 {
            candidate
        } else {
            "Player"@
        }
    }
}

/// The name the screen opens with.
pub fn initial_username(current: &String, profile: &Option<(Option<String>, String)>) -> (r: String)
    ensures
        r@ == opening_name(current@, profile_names(*profile)),
{
    if current.as_str().unicode_len() > 0 {
        return current.clone();
    }
    let candidate: String = match profile {
        Some((Some(p), _)) => p.clone(),
        Some((None, n)) => n.clone(),
        None => String::new(),
    };
    if candidate.as_str().unicode_len() > 0 {
        candidate
    } else {
        String::from_str("Player")
    }
}

/// Whether leaving the screen sends the typed name: only when connected
/// and something was typed.
pub fn sends_name(connected: bool, value: &String) -> (r: bool)
    ensures
        r == (connected && value@.len() > 0),
{
    connected && value.as_str().unicode_len() > 0
}

} // verus!
