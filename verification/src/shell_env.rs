//! The `PATH` a login shell reports, which the window takes over at start:
//! programs started from a desktop get a minimal one.
use vstd::prelude::*;
use vstd::utf8::{decode_utf8, valid_utf8};

verus! {

/// Unicode's `White_Space` property: tab, line feed, vertical tab, form
/// feed, carriage return, space, next line, no-break space, Ogham space
/// mark, the spaces U+2000 to U+200A, the line and paragraph separators,
/// the narrow no-break space, the medium mathematical space and the
/// ideographic space.
pub open spec fn unicode_white_space(c: char) -> bool {
    let n = c as int;
    ||| 0x09 <= n <= 0x0d
    ||| n == 0x20
    ||| n == 0x85
    ||| n == 0xa0
    ||| n == 0x1680
    ||| 0x2000 <= n <= 0x200a
    ||| n == 0x2028
    ||| n == 0x2029
    ||| n == 0x202f
    ||| n == 0x205f
    ||| n == 0x3000
}

/// `s` without the white space it starts with.
pub open spec fn trim_start(s: Seq<char>) -> Seq<char>
    decreases s.len(),
{
    if s.len() > 0 && unicode_white_space(s[0]) {
        trim_start(s.drop_first())
    } else {
        s
    }
}

/// `s` without the white space it ends with.
pub open spec fn trim_end(s: Seq<char>) -> Seq<char>
    decreases s.len(),
{
    if s.len() > 0 && unicode_white_space(s.last()) {
        trim_end(s.drop_last())
    } else {
        s
    }
}

/// `s` without its leading and trailing white space.
pub open spec fn trimmed(s: Seq<char>) -> Seq<char> {
    trim_end(trim_start(s))
}

/// Calls `std::str::from_utf8`, which its documentation says gives the
/// string the bytes encode when they are valid UTF-8 and an error
/// otherwise.
#[verifier::external_body]
fn utf8_text(bytes: &[u8]) -> (r: Option<&str>)
    ensures
        r is Some <==> valid_utf8(bytes@),
        r is Some ==> r.unwrap()@ == decode_utf8(bytes@),
{
    match std::str::from_utf8(bytes) {
        Ok(text) => Some(text),
        Err(_) => None,
    }
}

/// Calls `str::trim`, which its documentation says removes leading and
/// trailing white space as Unicode's `White_Space` property defines it;
/// that property holds of exactly the characters of `unicode_white_space`.
#[verifier::external_body]
fn trim(s: &str) -> (r: &str)
    ensures
        r@ == trimmed(s@),
{
    s.trim()
}

/// The `PATH` to take from what `echo $PATH` printed in a login shell: the
/// output without surrounding white space, when it is UTF-8 and something
/// is left.
pub fn login_shell_path(stdout: &[u8]) -> (r: Option<String>)
    ensures
        r is Some <==> valid_utf8(stdout@) && trimmed(decode_utf8(stdout@)).len() > 0,
        r is Some ==> r.unwrap()@ == trimmed(decode_utf8(stdout@)),
{
    match utf8_text(stdout) {
        Some(text) => {
            let path = trim(text);
            if path.is_empty() {
                None
            } else {
                Some(path.to_owned())
            }
        },
        None => None,
    }
}

} // verus!
