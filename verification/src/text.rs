//! Small verified string helpers shared by the key builder and the parser.

use vstd::prelude::*;

verus! {

/// Compares two string slices by contents.
pub fn str_eq(a: &str, b: &str) -> (r: bool)
    ensures
        r == (a@ == b@),
{
    let sa = a.to_owned();
    let sb = b.to_owned();
    sa.eq(&sb)
}

/// Lowercases ASCII letters, leaving every other character unchanged.
pub open spec fn ascii_lower_char(c: char) -> char {
    if 65 <= (c as int) && (c as int) <= 90 {
        ((c as int) + 32) as char
    } else {
        c
    }
}

pub open spec fn ascii_lower(s: Seq<char>) -> Seq<char> {
    s.map_values(|c: char| ascii_lower_char(c))
}

/// Lowercases the ASCII letters of a string, character by character.
pub fn to_ascii_lower(s: &str) -> (r: String)
    ensures
        r@ == ascii_lower(s@),
{
    let len = s.unicode_len();
    let mut out = String::new();
    let mut i: usize = 0;
    while i < len
        invariant
            len == s@.len(),
            0 <= i <= len,
            out@ == ascii_lower(s@.subrange(0, i as int)),
        decreases len - i,
    {
        let c = s.get_char(i);
        let lc = lower_char(c);
        push_char(&mut out, lc);
        proof {
            assert(s@.subrange(0, i as int + 1).map_values(|ch: char| ascii_lower_char(ch))
                =~= s@.subrange(0, i as int).map_values(|ch: char| ascii_lower_char(ch)).push(
                ascii_lower_char(c),
            ));
        }
        i = i + 1;
    }
    proof {
        assert(s@.subrange(0, len as int) =~= s@);
    }
    out
}

/// Lowercases one ASCII character.
fn lower_char(c: char) -> (r: char)
    ensures
        r == ascii_lower_char(c),
{
    let code = c as u32;
    if 65 <= code && code <= 90 {
        let lower = code + 32;
        proof {
            assert(97 <= lower && lower <= 122);
        }
        char_from_u32(lower)
    } else {
        c
    }
}

/// Relies on `char::from_u32`: for a code point below the surrogate range
/// it returns the character with that code point.
#[verifier::external_body]
fn char_from_u32(code: u32) -> (r: char)
    requires
        code < 0xd800,
    ensures
        (r as int) == code as int,
{
    char::from_u32(code).unwrap()
}

/// Appends one character to a string.
pub fn push_char(s: &mut String, c: char)
    ensures
        final(s)@ == old(s)@.push(c),
{
    let mut buf = [0u8; 4];
    let enc: &str = encode_char(c, &mut buf);
    s.append(enc);
    proof {
        assert(old(s)@ + seq![c] =~= old(s)@.push(c));
    }
}

/// Relies on `char::encode_utf8`: the returned slice is the one-character
/// string holding exactly `c`.
#[verifier::external_body]
fn encode_char<'a>(c: char, buf: &'a mut [u8; 4]) -> (r: &'a str)
    ensures
        r@ == seq![c],
{
    c.encode_utf8(buf)
}

} // verus!
