use vstd::prelude::*;
use vstd::string::StringSliceAdditionalSpecFns;

verus! {

/// The value of one hexadecimal digit; a byte that is no hexadecimal digit counts as zero.
pub open spec fn spec_hex_val(ch: u8) -> u8 {
    if 48 <= ch <= 57 {
        (ch - 48) as u8
    } else if 65 <= ch <= 70 {
        (ch - 55) as u8
    } else if 97 <= ch <= 102 {
        (ch - 87) as u8
    } else {
        0
    }
}

/// The byte that two hexadecimal digits denote, high digit first.
pub open spec fn spec_hex_pair(hi: u8, lo: u8) -> u8 {
    (spec_hex_val(hi) * 16 + spec_hex_val(lo)) as u8
}

/// The color that six bytes of hexadecimal digits denote: red, green and blue, two digits each.
/// Any other length gives none.
pub open spec fn spec_parse_hex(bytes: Seq<u8>) -> Option<(u8, u8, u8)> {
    if bytes.len() != 6 {
        None
    } else {
        Some(
            (
                spec_hex_pair(bytes[0], bytes[1]),
                spec_hex_pair(bytes[2], bytes[3]),
                spec_hex_pair(bytes[4], bytes[5]),
            ),
        )
    }
}

/// The lower case hexadecimal digit for `d < 16`.
pub open spec fn hex_digit_char(d: nat) -> char {
    if d < 10 {
        (48 + d) as char
    } else {
        (87 + d) as char
    }
}

/// The two lower case hexadecimal digits of a byte.
pub open spec fn hex_byte_text(v: u8) -> Seq<char> {
    seq![hex_digit_char(v as nat / 16), hex_digit_char(v as nat % 16)]
}

/// The six lower case hexadecimal digits of a color: red, green, blue.
pub open spec fn hex_text(r: u8, g: u8, b: u8) -> Seq<char> {
    hex_byte_text(r) + hex_byte_text(g) + hex_byte_text(b)
}

/// The bytes of a text of ASCII characters.
pub open spec fn ascii_bytes(cs: Seq<char>) -> Seq<u8> {
    cs.map_values(|c: char| c as u8)
}

pub fn hex_val(ch: u8) -> (r: u8)
    ensures
        r == spec_hex_val(ch),
        r < 16,
{
    if ch >= 48 && ch <= 57 {
        ch - 48
    } else if ch >= 65 && ch <= 70 {
        ch - 55
    } else if ch >= 97 && ch <= 102 {
        ch - 87
    } else {
        0
    }
}

pub fn hex_chars_to_u8(ch: (u8, u8)) -> (r: u8)
    ensures
        r == spec_hex_pair(ch.0, ch.1),
{
    hex_val(ch.0) * 16 + hex_val(ch.1)
}

/// Parses a color written as six hexadecimal digits, such as `12abff`. Gives none when the
/// text is not six bytes long; a byte that is no hexadecimal digit counts as zero.
pub fn parse_hex(color: &str) -> (r: Option<(u8, u8, u8)>)
    ensures
        r == spec_parse_hex(color.spec_bytes()),
{
    if color.len() != 6 {
        return None;
    }
    let bytes = color.as_bytes();
    Some(
        (
            hex_chars_to_u8((bytes[0], bytes[1])),
            hex_chars_to_u8((bytes[2], bytes[3])),
            hex_chars_to_u8((bytes[4], bytes[5])),
        ),
    )
}

fn hex_digit(d: u8) -> (c: char)
    requires
        d < 16,
    ensures
        c == hex_digit_char(d as nat),
{
    if d < 10 {
        (48 + d) as char
    } else {
        (87 + d) as char
    }
}

/// Appends the two lower case hexadecimal digits of `v`.
fn push_hex_byte(s: &mut String, v: u8)
    ensures
        final(s)@ == old(s)@ + hex_byte_text(v),
{
    crate::text::push_char(s, hex_digit(v / 16));
    crate::text::push_char(s, hex_digit(v % 16));
    assert(final(s)@ =~= old(s)@ + hex_byte_text(v));
}

/// The color as `#` followed by six lower case hexadecimal digits, such as `#12abff`.
pub fn hex_code(r: u8, g: u8, b: u8) -> (s: String)
    ensures
        s@ == seq!['#'] + hex_text(r, g, b),
{
    let mut s = String::new();
    crate::text::push_char(&mut s, '#');
    push_hex_byte(&mut s, r);
    push_hex_byte(&mut s, g);
    push_hex_byte(&mut s, b);
    assert(s@ =~= seq!['#'] + hex_text(r, g, b));
    s
}

proof fn lemma_hex_digit_roundtrip(d: nat)
    requires
        d < 16,
    ensures
        spec_hex_val(hex_digit_char(d) as u8) == d,
{
}

/// Reading back the six digits that `hex_code` writes after the `#` gives the same color.
pub proof fn law_hex_roundtrip(r: u8, g: u8, b: u8)
    ensures
        spec_parse_hex(ascii_bytes(hex_text(r, g, b))) == Some((r, g, b)),
{
    let bs = ascii_bytes(hex_text(r, g, b));
    lemma_hex_digit_roundtrip(r as nat / 16);
    lemma_hex_digit_roundtrip(r as nat % 16);
    lemma_hex_digit_roundtrip(g as nat / 16);
    lemma_hex_digit_roundtrip(g as nat % 16);
    lemma_hex_digit_roundtrip(b as nat / 16);
    lemma_hex_digit_roundtrip(b as nat % 16);
    assert(bs.len() == 6);
    assert(bs[0] == hex_digit_char(r as nat / 16) as u8);
    assert(bs[1] == hex_digit_char(r as nat % 16) as u8);
    assert(bs[2] == hex_digit_char(g as nat / 16) as u8);
    assert(bs[3] == hex_digit_char(g as nat % 16) as u8);
    assert(bs[4] == hex_digit_char(b as nat / 16) as u8);
    assert(bs[5] == hex_digit_char(b as nat % 16) as u8);
}

/// The byte of the upper case hexadecimal digit for `d < 16`: `0`-`9`, then `A`-`F`.
pub open spec fn upper_hex_byte(d: nat) -> u8 {
    if d < 10 {
        (48 + d) as u8
    } else {
        (65 + d - 10) as u8
    }
}

/// The six upper case hexadecimal digits of a color, as bytes: red, green, blue.
pub open spec fn upper_hex_bytes(r: u8, g: u8, b: u8) -> Seq<u8> {
    seq![
        upper_hex_byte(r as nat / 16),
        upper_hex_byte(r as nat % 16),
        upper_hex_byte(g as nat / 16),
        upper_hex_byte(g as nat % 16),
        upper_hex_byte(b as nat / 16),
        upper_hex_byte(b as nat % 16),
    ]
}

/// Each hexadecimal digit reads as its value: `0`-`9` as 0 to 9, and both `A`-`F` and `a`-`f`
/// as 10 to 15.
pub proof fn law_hex_digit_values(d: nat)
    requires
        d < 16,
    ensures
        d < 10 ==> spec_hex_val((48 + d) as u8) == d,
        d >= 10 ==> spec_hex_val((65 + d - 10) as u8) == d,
        d >= 10 ==> spec_hex_val((97 + d - 10) as u8) == d,
{
}

/// A color written in upper case hexadecimal digits reads back as that color.
pub proof fn law_upper_hex_roundtrip(r: u8, g: u8, b: u8)
    ensures
        spec_parse_hex(upper_hex_bytes(r, g, b)) == Some((r, g, b)),
{
    let bs = upper_hex_bytes(r, g, b);
    law_hex_digit_values(r as nat / 16);
    law_hex_digit_values(r as nat % 16);
    law_hex_digit_values(g as nat / 16);
    law_hex_digit_values(g as nat % 16);
    law_hex_digit_values(b as nat / 16);
    law_hex_digit_values(b as nat % 16);
    assert(bs.len() == 6);
    assert(spec_hex_val(bs[0]) == r as nat / 16);
    assert(spec_hex_val(bs[1]) == r as nat % 16);
    assert(spec_hex_val(bs[2]) == g as nat / 16);
    assert(spec_hex_val(bs[3]) == g as nat % 16);
    assert(spec_hex_val(bs[4]) == b as nat / 16);
    assert(spec_hex_val(bs[5]) == b as nat % 16);
}

} // verus!
