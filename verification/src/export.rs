use vstd::prelude::*;
use vstd::string::StringExecFns;

use crate::digits::{push_decimal, DigitFormat};
use crate::hex::{hex_code, hex_text};

verus! {

/// The decimal digits of `n`.
pub open spec fn dec(n: nat) -> Seq<char> {
    DigitFormat::Decimal.number_text(n)
}

/// `t` right-aligned in a field of `width` characters, padded with spaces on the left.
pub open spec fn pad_left(t: Seq<char>, width: nat) -> Seq<char> {
    if t.len() < width {
        Seq::new((width - t.len()) as nat, |i: int| ' ') + t
    } else {
        t
    }
}

/// Appends `t` right-aligned in a field of `width` characters.
fn push_padded_decimal(s: &mut String, n: usize, width: usize)
    ensures
        final(s)@ == old(s)@ + pad_left(dec(n as nat), width as nat),
{
    let mut digits = String::new();
    push_decimal(&mut digits, n);
    let cs = crate::text::chars_of(digits.as_str());
    let mut k = cs.len();
    let ghost start = s@;
    while k < width
        invariant
            cs@ == dec(n as nat),
            cs.len() <= k <= width || (k == cs.len() && cs.len() >= width),
            s@ == start + Seq::new((k - cs.len()) as nat, |i: int| ' '),
        decreases width - k,
    {
        crate::text::push_char(s, ' ');
        k += 1;
        assert(s@ =~= start + Seq::new((k - cs.len()) as nat, |i: int| ' '));
    }
    let ghost pad = s@;
    crate::text::push_chars(s, &cs, 0, cs.len());
    assert(cs@.subrange(0, cs.len() as int) =~= cs@);
    if cs.len() >= width {
        assert(s@ =~= start + pad_left(dec(n as nat), width as nat));
    } else {
        assert(s@ =~= start + pad_left(dec(n as nat), width as nat));
    }
}

/// CSS notation of an 8-bit color: `rgb(r,g,b)`.
pub open spec fn css_rgb_text(r: u8, g: u8, b: u8) -> Seq<char> {
    "rgb("@ + dec(r as nat) + ","@ + dec(g as nat) + ","@ + dec(b as nat) + ")"@
}

/// CSS notation of an 8-bit color with each channel right-aligned in three places.
pub open spec fn css_rgb_padded_text(r: u8, g: u8, b: u8) -> Seq<char> {
    "rgb("@ + pad_left(dec(r as nat), 3) + ","@ + pad_left(dec(g as nat), 3) + ","@ + pad_left(
        dec(b as nat),
        3,
    ) + ")"@
}

/// The degree sign, or nothing.
pub open spec fn degree_text(degree_symbol: bool) -> Seq<char> {
    if degree_symbol {
        seq!['°']
    } else {
        Seq::empty()
    }
}

/// CSS notation of a color in HSL: hue in degrees, saturation and lightness in percent.
pub open spec fn css_hsl_text(h: u16, s: u16, l: u16, degree_symbol: bool) -> Seq<char> {
    "hsl("@ + dec(h as nat) + degree_text(degree_symbol) + ","@ + dec(s as nat) + "%,"@ + dec(
        l as nat,
    ) + "%)"@
}

/// Like `css_hsl_text`, with each number right-aligned in three places.
pub open spec fn css_hsl_padded_text(h: u16, s: u16, l: u16, degree_symbol: bool) -> Seq<char> {
    "hsl("@ + pad_left(dec(h as nat), 3) + degree_text(degree_symbol) + ","@ + pad_left(
        dec(s as nat),
        3,
    ) + "%,"@ + pad_left(dec(l as nat), 3) + "%)"@
}

pub fn css_rgb(r: u8, g: u8, b: u8) -> (t: String)
    ensures
        t@ == css_rgb_text(r, g, b),
{
    let mut t = String::new();
    t.append("rgb(");
    push_decimal(&mut t, r as usize);
    t.append(",");
    push_decimal(&mut t, g as usize);
    t.append(",");
    push_decimal(&mut t, b as usize);
    t.append(")");
    assert(t@ =~= css_rgb_text(r, g, b));
    t
}

pub fn css_rgb_padded(r: u8, g: u8, b: u8) -> (t: String)
    ensures
        t@ == css_rgb_padded_text(r, g, b),
{
    let mut t = String::new();
    t.append("rgb(");
    push_padded_decimal(&mut t, r as usize, 3);
    t.append(",");
    push_padded_decimal(&mut t, g as usize, 3);
    t.append(",");
    push_padded_decimal(&mut t, b as usize, 3);
    t.append(")");
    assert(t@ =~= css_rgb_padded_text(r, g, b));
    t
}

fn push_degree(t: &mut String, degree_symbol: bool)
    ensures
        final(t)@ == old(t)@ + degree_text(degree_symbol),
{
    if degree_symbol {
        crate::text::push_char(t, '°');
    } else {
        assert(old(t)@ + degree_text(degree_symbol) =~= old(t)@);
    }
}

pub fn css_hsl(h: u16, s: u16, l: u16, degree_symbol: bool) -> (t: String)
    ensures
        t@ == css_hsl_text(h, s, l, degree_symbol),
{
    let mut t = String::new();
    t.append("hsl(");
    push_decimal(&mut t, h as usize);
    push_degree(&mut t, degree_symbol);
    t.append(",");
    push_decimal(&mut t, s as usize);
    t.append("%,");
    push_decimal(&mut t, l as usize);
    t.append("%)");
    assert(t@ =~= css_hsl_text(h, s, l, degree_symbol));
    t
}

pub fn css_hsl_padded(h: u16, s: u16, l: u16, degree_symbol: bool) -> (t: String)
    ensures
        t@ == css_hsl_padded_text(h, s, l, degree_symbol),
{
    let mut t = String::new();
    t.append("hsl(");
    push_padded_decimal(&mut t, h as usize, 3);
    push_degree(&mut t, degree_symbol);
    t.append(",");
    push_padded_decimal(&mut t, s as usize, 3);
    t.append("%,");
    push_padded_decimal(&mut t, l as usize, 3);
    t.append("%)");
    assert(t@ =~= css_hsl_padded_text(h, s, l, degree_symbol));
    t
}

/// One line per color: its `#rrggbb` code and a newline.
pub open spec fn hex_list_text(colors: Seq<(u8, u8, u8)>) -> Seq<char>
    decreases colors.len(),
{
    if colors.len() == 0 {
        Seq::empty()
    } else {
        let c = colors.last();
        hex_list_text(colors.drop_last()) + seq!['#'] + hex_text(c.0, c.1, c.2) + seq!['\n']
    }
}

/// The colors as a list of hex codes, one per line.
pub fn hex_list(colors: &[(u8, u8, u8)]) -> (t: String)
    ensures
        t@ == hex_list_text(colors@),
{
    let mut t = String::new();
    let mut i: usize = 0;
    while i < colors.len()
        invariant
            i <= colors.len(),
            t@ == hex_list_text(colors@.subrange(0, i as int)),
        decreases colors.len() - i,
    {
        let (r, g, b) = colors[i];
        let code = hex_code(r, g, b);
        t.append(code.as_str());
        crate::text::push_char(&mut t, '\n');
        assert(colors@.subrange(0, i + 1).drop_last() =~= colors@.subrange(0, i as int));
        i += 1;
        assert(t@ =~= hex_list_text(colors@.subrange(0, i as int)));
    }
    assert(colors@.subrange(0, i as int) =~= colors@);
    t
}

/// The header of a GIMP palette file for a palette named `name`.
pub open spec fn gimp_header_text(name: Seq<char>) -> Seq<char> {
    "GIMP Palette\nName: "@ + name + ".gpl\nColumns: 1\n#\n"@
}

/// The line of a GIMP palette file for color number `i`: the channels and a name, separated by
/// tabs.
pub open spec fn gimp_line_text(c: (u8, u8, u8), i: nat) -> Seq<char> {
    dec(c.0 as nat) + seq!['\t'] + dec(c.1 as nat) + seq!['\t'] + dec(c.2 as nat) + "\tcolor "@
        + dec(i) + seq!['\n']
}

/// The lines of a GIMP palette file for the colors, numbered from zero.
pub open spec fn gimp_lines_text(colors: Seq<(u8, u8, u8)>) -> Seq<char>
    decreases colors.len(),
{
    if colors.len() == 0 {
        Seq::empty()
    } else {
        gimp_lines_text(colors.drop_last()) + gimp_line_text(
            colors.last(),
            (colors.len() - 1) as nat,
        )
    }
}

/// The colors as a GIMP palette file named `name`, one color per line.
pub fn gimp_palette(name: &str, colors: &[(u8, u8, u8)]) -> (t: String)
    ensures
        t@ == gimp_header_text(name@) + gimp_lines_text(colors@),
{
    let mut t = String::new();
    t.append("GIMP Palette\nName: ");
    t.append(name);
    t.append(".gpl\nColumns: 1\n#\n");
    let ghost header = t@;
    assert(header =~= gimp_header_text(name@));
    let mut i: usize = 0;
    while i < colors.len()
        invariant
            i <= colors.len(),
            header == gimp_header_text(name@),
            t@ == header + gimp_lines_text(colors@.subrange(0, i as int)),
        decreases colors.len() - i,
    {
        let (r, g, b) = colors[i];
        push_decimal(&mut t, r as usize);
        crate::text::push_char(&mut t, '\t');
        push_decimal(&mut t, g as usize);
        crate::text::push_char(&mut t, '\t');
        push_decimal(&mut t, b as usize);
        t.append("\tcolor ");
        push_decimal(&mut t, i);
        crate::text::push_char(&mut t, '\n');
        assert(colors@.subrange(0, i + 1).drop_last() =~= colors@.subrange(0, i as int));
        i += 1;
        assert(t@ =~= header + gimp_lines_text(colors@.subrange(0, i as int)));
    }
    assert(colors@.subrange(0, i as int) =~= colors@);
    t
}

} // verus!
