//! The naming rule for usernames and the length limits of free-text columns.
use vstd::prelude::*;

verus! {

/// Longest username, in characters.
pub const USERNAME_MAX_CHARS: usize = 32;

/// Longest display name, in characters.
pub const DISPLAYNAME_MAX_CHARS: usize = 32;

/// Longest group chat message, in characters.
pub const CONTENT_MAX_CHARS: usize = 2048;

/// The Unicode `White_Space` property, which `char::is_whitespace` tests.
pub open spec fn is_white_space(c: char) -> bool {
    let u = c as u32;
    ||| 0x9 <= u <= 0xd
    ||| u == 0x20
    ||| u == 0x85
    ||| u == 0xa0
    ||| u == 0x1680
    ||| 0x2000 <= u <= 0x200a
    ||| u == 0x2028
    ||| u == 0x2029
    ||| u == 0x202f
    ||| u == 0x205f
    ||| u == 0x3000
}

pub fn is_whitespace(c: char) -> (r: bool)
    ensures
        r == is_white_space(c),
{
    let u = c as u32;
    (0x9 <= u && u <= 0xd) || u == 0x20 || u == 0x85 || u == 0xa0 || u == 0x1680 || (0x2000 <= u
        && u <= 0x200a) || u == 0x2028 || u == 0x2029 || u == 0x202f || u == 0x205f || u == 0x3000
}

/// A username holds no whitespace and at most 32 characters.
pub open spec fn valid_username(s: Seq<char>) -> bool {
    &&& forall|i: int| 0 <= i < s.len() ==> !is_white_space(#[trigger] s[i])
    &&& s.len() <= USERNAME_MAX_CHARS
}

/// Tests the naming rule for usernames.
pub fn is_username_valid(username: &str) -> (r: bool)
    ensures
        r == valid_username(username@),
{
    let n = username.unicode_len();
    let mut i: usize = 0;
    while i < n
        invariant
            n == username@.len(),
            i <= n,
            forall|j: int| 0 <= j < i ==> !is_white_space(#[trigger] username@[j]),
        decreases n - i,
    {
        if is_whitespace(username.get_char(i)) {
            return false;
        }
        i += 1;
    }
    n <= USERNAME_MAX_CHARS
}

/// An absent display name, or one of at most 32 characters.
pub open spec fn displayname_fits(d: Option<String>) -> bool {
    d matches Some(s) ==> s@.len() <= DISPLAYNAME_MAX_CHARS
}

pub fn check_displayname(d: &Option<String>) -> (r: bool)
    ensures
        r == displayname_fits(*d),
{
    match d {
        Some(s) => s.as_str().unicode_len() <= DISPLAYNAME_MAX_CHARS,
        None => true,
    }
}

/// A group chat message of at most 2048 characters.
pub open spec fn content_fits(s: Seq<char>) -> bool {
    s.len() <= CONTENT_MAX_CHARS
}

pub fn check_content(s: &str) -> (r: bool)
    ensures
        r == content_fits(s@),
{
    s.unicode_len() <= CONTENT_MAX_CHARS
}

} // verus!
