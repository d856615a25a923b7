//! String helpers offered to scripts under `Util::String`.

use vstd::prelude::*;
use vstd::string::*;

verus! {

/// Name of the namespace these helpers are registered under.
pub const MODULE_NAME: &'static str = "String";

/// The upper-case form of an ASCII lower-case letter; every other character,
/// non-ASCII letters included, is itself.
pub open spec fn ascii_upper(c: char) -> char {
    if 'a' <= c && c <= 'z' {
        ((c as u8) - 32) as char
    } else {
        c
    }
}

/// A text with only its first character put to ASCII upper case.
pub open spec fn capitalized(text: Seq<char>) -> Seq<char> {
    if text.len() == 0 {
        text
    } else {
        text.update(0, ascii_upper(text[0]))
    }
}

/// `String::push`: appends one character at the end.
#[verifier::external_body]
fn push_char(text: &mut String, c: char)
    ensures
        final(text)@ == old(text)@.push(c),
{
    text.push(c)
}

/// Puts an ASCII lower-case letter to upper case and leaves any other
/// character alone.
pub fn to_ascii_upper(c: char) -> (r: char)
    ensures
        r == ascii_upper(c),
{
    if 'a' <= c && c <= 'z' {
        let code: u8 = c as u8;
        (code - 32) as char
    } else {
        c
    }
}

/// Only capitalizes ASCII: the first character is put to upper case when it
/// is an ASCII lower-case letter, and nothing else changes. An empty text
/// stays empty.
pub fn capitalize(text: &mut String)
    ensures
        final(text)@ == capitalized(old(text)@),
{
    let n: usize = text.as_str().unicode_len();
    if n > 0 {
        let first: char = text.as_str().get_char(0);
        let mut out = String::new();
        push_char(&mut out, to_ascii_upper(first));
        out.append(text.as_str().substring_char(1, n));
        assert(out@ =~= capitalized(text@));
        *text = out;
    }
}

} // verus!
