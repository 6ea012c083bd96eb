use vstd::prelude::*;
use vstd::std_specs::cmp::PartialEqSpecImpl;
use vstd::std_specs::convert::FromSpecImpl;

use crate::digits::DigitFormat;

verus! {

/// A color value that a format string can name between braces.
#[allow(non_camel_case_types)]
#[derive(Debug, Clone, Copy, PartialEq, Eq, Structural)]
pub enum ColorSymbol {
    Red,
    Green,
    Blue,
    Red255,
    Green255,
    Blue255,
    Cyan,
    Magenta,
    Yellow,
    Key,
    Cyan100,
    Magenta100,
    Yellow100,
    Key100,
    HSLHue,
    HSLSaturation,
    HSLLight,
    HSLHue360,
    HSLSaturation100,
    HSLLight100,
    HSVHue,
    HSVSaturation,
    HSVValue,
    HSVHue360,
    HSVSaturation100,
    HSVValue100,
    LabL,
    LabA,
    LabB,
    LCHabL,
    LCHabC,
    LCHabH,
    LuvL,
    LuvU,
    LuvV,
    LCHuvL,
    LCHuvC,
    LCHuvH,
    xyYx,
    xyYy,
    xyYY,
    XYZx,
    XYZy,
    XYZz,
}

/// The name by which a field is written in a format string.
pub open spec fn keyword(symbol: ColorSymbol) -> Seq<char> {
    match symbol {
        ColorSymbol::Red => seq!['r'],
        ColorSymbol::Green => seq!['g'],
        ColorSymbol::Blue => seq!['b'],
        ColorSymbol::Red255 => seq!['r', '2', '5', '5'],
        ColorSymbol::Green255 => seq!['g', '2', '5', '5'],
        ColorSymbol::Blue255 => seq!['b', '2', '5', '5'],
        ColorSymbol::Cyan => seq!['c'],
        ColorSymbol::Magenta => seq!['m'],
        ColorSymbol::Yellow => seq!['y'],
        ColorSymbol::Key => seq!['k'],
        ColorSymbol::Cyan100 => seq!['c', '1', '0', '0'],
        ColorSymbol::Magenta100 => seq!['m', '1', '0', '0'],
        ColorSymbol::Yellow100 => seq!['y', '1', '0', '0'],
        ColorSymbol::Key100 => seq!['k', '1', '0', '0'],
        ColorSymbol::HSLHue => seq!['h', 's', 'l', '_', 'h'],
        ColorSymbol::HSLSaturation => seq!['h', 's', 'l', '_', 's'],
        ColorSymbol::HSLLight => seq!['h', 's', 'l', '_', 'l'],
        ColorSymbol::HSLHue360 => seq!['h', 's', 'l', '_', 'h', '3', '6', '0'],
        ColorSymbol::HSLSaturation100 => seq!['h', 's', 'l', '_', 's', '1', '0', '0'],
        ColorSymbol::HSLLight100 => seq!['h', 's', 'l', '_', 'l', '1', '0', '0'],
        ColorSymbol::HSVHue => seq!['h', 's', 'v', '_', 'h'],
        ColorSymbol::HSVSaturation => seq!['h', 's', 'v', '_', 's'],
        ColorSymbol::HSVValue => seq!['h', 's', 'v', '_', 'v'],
        ColorSymbol::HSVHue360 => seq!['h', 's', 'v', '_', 'h', '3', '6', '0'],
        ColorSymbol::HSVSaturation100 => seq!['h', 's', 'v', '_', 's', '1', '0', '0'],
        ColorSymbol::HSVValue100 => seq!['h', 's', 'v', '_', 'v', '1', '0', '0'],
        ColorSymbol::LabL => seq!['l', 'a', 'b', '_', 'l'],
        ColorSymbol::LabA => seq!['l', 'a', 'b', '_', 'a'],
        ColorSymbol::LabB => seq!['l', 'a', 'b', '_', 'b'],
        ColorSymbol::LCHabL => seq!['l', 'c', 'h', '_', 'a', 'b', '_', 'l'],
        ColorSymbol::LCHabC => seq!['l', 'c', 'h', '_', 'a', 'b', '_', 'c'],
        ColorSymbol::LCHabH => seq!['l', 'c', 'h', '_', 'a', 'b', '_', 'h'],
        ColorSymbol::LuvL => seq!['l', 'u', 'v', '_', 'l'],
        ColorSymbol::LuvU => seq!['l', 'u', 'v', '_', 'u'],
        ColorSymbol::LuvV => seq!['l', 'u', 'v', '_', 'v'],
        ColorSymbol::LCHuvL => seq!['l', 'c', 'h', '_', 'u', 'v', '_', 'l'],
        ColorSymbol::LCHuvC => seq!['l', 'c', 'h', '_', 'u', 'v', '_', 'c'],
        ColorSymbol::LCHuvH => seq!['l', 'c', 'h', '_', 'u', 'v', '_', 'h'],
        ColorSymbol::xyYx => seq!['x', 'y', 'y', '_', 'x'],
        ColorSymbol::xyYy => seq!['x', 'y', 'y', '_', 'y'],
        ColorSymbol::xyYY => seq!['x', 'y', 'y', '_', 'Y'],
        ColorSymbol::XYZx => seq!['x', 'y', 'z', '_', 'x'],
        ColorSymbol::XYZy => seq!['x', 'y', 'z', '_', 'y'],
        ColorSymbol::XYZz => seq!['x', 'y', 'z', '_', 'z'],
    }
}

/// The symbols in the order in which the parser tries their names: a longer name before

/// The number of color symbols.
pub const SYMBOL_COUNT: usize = 44;

/// The symbols in the order in which the parser tries their names: a longer name before
/// a shorter name that begins it.
pub open spec fn symbol_by_rank(k: usize) -> ColorSymbol {
    match k {
        0 => ColorSymbol::Red255,
        1 => ColorSymbol::Green255,
        2 => ColorSymbol::Blue255,
        3 => ColorSymbol::Red,
        4 => ColorSymbol::Green,
        5 => ColorSymbol::Blue,
        6 => ColorSymbol::Cyan100,
        7 => ColorSymbol::Magenta100,
        8 => ColorSymbol::Yellow100,
        9 => ColorSymbol::Key100,
        10 => ColorSymbol::Cyan,
        11 => ColorSymbol::Magenta,
        12 => ColorSymbol::Yellow,
        13 => ColorSymbol::Key,
        14 => ColorSymbol::HSLHue360,
        15 => ColorSymbol::HSLSaturation100,
        16 => ColorSymbol::HSLLight100,
        17 => ColorSymbol::HSLHue,
        18 => ColorSymbol::HSLSaturation,
        19 => ColorSymbol::HSLLight,
        20 => ColorSymbol::HSVHue360,
        21 => ColorSymbol::HSVSaturation100,
        22 => ColorSymbol::HSVValue100,
        23 => ColorSymbol::HSVHue,
        24 => ColorSymbol::HSVSaturation,
        25 => ColorSymbol::HSVValue,
        26 => ColorSymbol::LabL,
        27 => ColorSymbol::LabA,
        28 => ColorSymbol::LabB,
        29 => ColorSymbol::LCHabL,
        30 => ColorSymbol::LCHabC,
        31 => ColorSymbol::LCHabH,
        32 => ColorSymbol::LuvL,
        33 => ColorSymbol::LuvU,
        34 => ColorSymbol::LuvV,
        35 => ColorSymbol::LCHuvL,
        36 => ColorSymbol::LCHuvC,
        37 => ColorSymbol::LCHuvH,
        38 => ColorSymbol::xyYx,
        39 => ColorSymbol::xyYy,
        40 => ColorSymbol::xyYY,
        41 => ColorSymbol::XYZx,
        42 => ColorSymbol::XYZy,
        _ => ColorSymbol::XYZz,
    }
}

fn keyword_chars(symbol: ColorSymbol) -> (r: Vec<char>)
    ensures
        r@ == keyword(symbol),
{
    match symbol {
        ColorSymbol::Red => vec!['r'],
        ColorSymbol::Green => vec!['g'],
        ColorSymbol::Blue => vec!['b'],
        ColorSymbol::Red255 => vec!['r', '2', '5', '5'],
        ColorSymbol::Green255 => vec!['g', '2', '5', '5'],
        ColorSymbol::Blue255 => vec!['b', '2', '5', '5'],
        ColorSymbol::Cyan => vec!['c'],
        ColorSymbol::Magenta => vec!['m'],
        ColorSymbol::Yellow => vec!['y'],
        ColorSymbol::Key => vec!['k'],
        ColorSymbol::Cyan100 => vec!['c', '1', '0', '0'],
        ColorSymbol::Magenta100 => vec!['m', '1', '0', '0'],
        ColorSymbol::Yellow100 => vec!['y', '1', '0', '0'],
        ColorSymbol::Key100 => vec!['k', '1', '0', '0'],
        ColorSymbol::HSLHue => vec!['h', 's', 'l', '_', 'h'],
        ColorSymbol::HSLSaturation => vec!['h', 's', 'l', '_', 's'],
        ColorSymbol::HSLLight => vec!['h', 's', 'l', '_', 'l'],
        ColorSymbol::HSLHue360 => vec!['h', 's', 'l', '_', 'h', '3', '6', '0'],
        ColorSymbol::HSLSaturation100 => vec!['h', 's', 'l', '_', 's', '1', '0', '0'],
        ColorSymbol::HSLLight100 => vec!['h', 's', 'l', '_', 'l', '1', '0', '0'],
        ColorSymbol::HSVHue => vec!['h', 's', 'v', '_', 'h'],
        ColorSymbol::HSVSaturation => vec!['h', 's', 'v', '_', 's'],
        ColorSymbol::HSVValue => vec!['h', 's', 'v', '_', 'v'],
        ColorSymbol::HSVHue360 => vec!['h', 's', 'v', '_', 'h', '3', '6', '0'],
        ColorSymbol::HSVSaturation100 => vec!['h', 's', 'v', '_', 's', '1', '0', '0'],
        ColorSymbol::HSVValue100 => vec!['h', 's', 'v', '_', 'v', '1', '0', '0'],
        ColorSymbol::LabL => vec!['l', 'a', 'b', '_', 'l'],
        ColorSymbol::LabA => vec!['l', 'a', 'b', '_', 'a'],
        ColorSymbol::LabB => vec!['l', 'a', 'b', '_', 'b'],
        ColorSymbol::LCHabL => vec!['l', 'c', 'h', '_', 'a', 'b', '_', 'l'],
        ColorSymbol::LCHabC => vec!['l', 'c', 'h', '_', 'a', 'b', '_', 'c'],
        ColorSymbol::LCHabH => vec!['l', 'c', 'h', '_', 'a', 'b', '_', 'h'],
        ColorSymbol::LuvL => vec!['l', 'u', 'v', '_', 'l'],
        ColorSymbol::LuvU => vec!['l', 'u', 'v', '_', 'u'],
        ColorSymbol::LuvV => vec!['l', 'u', 'v', '_', 'v'],
        ColorSymbol::LCHuvL => vec!['l', 'c', 'h', '_', 'u', 'v', '_', 'l'],
        ColorSymbol::LCHuvC => vec!['l', 'c', 'h', '_', 'u', 'v', '_', 'c'],
        ColorSymbol::LCHuvH => vec!['l', 'c', 'h', '_', 'u', 'v', '_', 'h'],
        ColorSymbol::xyYx => vec!['x', 'y', 'y', '_', 'x'],
        ColorSymbol::xyYy => vec!['x', 'y', 'y', '_', 'y'],
        ColorSymbol::xyYY => vec!['x', 'y', 'y', '_', 'Y'],
        ColorSymbol::XYZx => vec!['x', 'y', 'z', '_', 'x'],
        ColorSymbol::XYZy => vec!['x', 'y', 'z', '_', 'y'],
        ColorSymbol::XYZz => vec!['x', 'y', 'z', '_', 'z'],
    }
}

fn symbol_at_rank(k: usize) -> (r: ColorSymbol)
    ensures
        r == symbol_by_rank(k),
{
    match k {
        0 => ColorSymbol::Red255,
        1 => ColorSymbol::Green255,
        2 => ColorSymbol::Blue255,
        3 => ColorSymbol::Red,
        4 => ColorSymbol::Green,
        5 => ColorSymbol::Blue,
        6 => ColorSymbol::Cyan100,
        7 => ColorSymbol::Magenta100,
        8 => ColorSymbol::Yellow100,
        9 => ColorSymbol::Key100,
        10 => ColorSymbol::Cyan,
        11 => ColorSymbol::Magenta,
        12 => ColorSymbol::Yellow,
        13 => ColorSymbol::Key,
        14 => ColorSymbol::HSLHue360,
        15 => ColorSymbol::HSLSaturation100,
        16 => ColorSymbol::HSLLight100,
        17 => ColorSymbol::HSLHue,
        18 => ColorSymbol::HSLSaturation,
        19 => ColorSymbol::HSLLight,
        20 => ColorSymbol::HSVHue360,
        21 => ColorSymbol::HSVSaturation100,
        22 => ColorSymbol::HSVValue100,
        23 => ColorSymbol::HSVHue,
        24 => ColorSymbol::HSVSaturation,
        25 => ColorSymbol::HSVValue,
        26 => ColorSymbol::LabL,
        27 => ColorSymbol::LabA,
        28 => ColorSymbol::LabB,
        29 => ColorSymbol::LCHabL,
        30 => ColorSymbol::LCHabC,
        31 => ColorSymbol::LCHabH,
        32 => ColorSymbol::LuvL,
        33 => ColorSymbol::LuvU,
        34 => ColorSymbol::LuvV,
        35 => ColorSymbol::LCHuvL,
        36 => ColorSymbol::LCHuvC,
        37 => ColorSymbol::LCHuvH,
        38 => ColorSymbol::xyYx,
        39 => ColorSymbol::xyYy,
        40 => ColorSymbol::xyYY,
        41 => ColorSymbol::XYZx,
        42 => ColorSymbol::XYZy,
        _ => ColorSymbol::XYZz,
    }
}

// ------------------------------------------------------------------------------------------
// The grammar of format strings
// ------------------------------------------------------------------------------------------

/// `{ r }`: a symbol between braces, with optional blanks inside the braces and an optional
/// digit format right behind the symbol.
#[derive(Debug, Clone, Copy, PartialEq, Eq, Structural)]
pub struct ColorField {
    pub symbol: ColorSymbol,
    pub digit_format: Option<DigitFormat>,
}

/// A piece of a parsed format string.
#[derive(Debug)]
pub enum FormatToken {
    Color(ColorField),
    Text(String),
}

/// The mathematical model of a token: text is a sequence of characters.
pub enum SpecToken {
    Color(ColorField),
    Text(Seq<char>),
}

impl View for FormatToken {
    type V = SpecToken;

    open spec fn view(&self) -> SpecToken {
        match self {
            FormatToken::Color(f) => SpecToken::Color(*f),
            FormatToken::Text(t) => SpecToken::Text(t@),
        }
    }
}

impl PartialEq for FormatToken {
    fn eq(&self, other: &Self) -> (r: bool) {
        match (self, other) {
            (FormatToken::Color(a), FormatToken::Color(b)) => *a == *b,
            (FormatToken::Text(a), FormatToken::Text(b)) => *a == *b,
            _ => false,
        }
    }
}

impl PartialEqSpecImpl for FormatToken {
    open spec fn obeys_eq_spec() -> bool {
        true
    }

    open spec fn eq_spec(&self, other: &Self) -> bool {
        self@ == other@
    }
}

pub open spec fn is_blank(c: char) -> bool {
    c == ' ' || c == '\t'
}

pub open spec fn is_digit(c: char) -> bool {
    '0' <= c && c <= '9'
}

/// Number of blanks (spaces and tabs) in `s` from position `i` on.
pub open spec fn blanks_len(s: Seq<char>, i: int) -> nat
    decreases s.len() - i,
{
    if 0 <= i < s.len() && is_blank(s[i]) {
        1 + blanks_len(s, i + 1)
    } else {
        0
    }
}

/// Number of decimal digits in `s` from position `i` on.
pub open spec fn digits_len(s: Seq<char>, i: int) -> nat
    decreases s.len() - i,
{
    if 0 <= i < s.len() && is_digit(s[i]) {
        1 + digits_len(s, i + 1)
    } else {
        0
    }
}

/// Number of characters other than `{` in `s` from position `i` on.
pub open spec fn text_len(s: Seq<char>, i: int) -> nat
    decreases s.len() - i,
{
    if 0 <= i < s.len() && s[i] != '{' {
        1 + text_len(s, i + 1)
    } else {
        0
    }
}

/// The number that a sequence of decimal digits denotes.
pub open spec fn decimal_value(d: Seq<char>) -> nat
    decreases d.len(),
{
    if d.len() == 0 {
        0
    } else {
        decimal_value(d.drop_last()) * 10 + ((d.last() as int) - ('0' as int)) as nat
    }
}

/// `s` holds the characters of `word` at position `i`.
pub open spec fn starts_with_at(s: Seq<char>, i: int, word: Seq<char>) -> bool {
    0 <= i && i + word.len() <= s.len() && s.subrange(i, i + word.len()) == word
}

/// The first symbol, in the order in which they are tried from rank `k` on, whose name `s`
/// holds at position `i`.
pub open spec fn symbol_from_rank(s: Seq<char>, i: int, k: nat) -> Option<ColorSymbol>
    decreases SYMBOL_COUNT - k,
{
    if k >= SYMBOL_COUNT {
        None
    } else if starts_with_at(s, i, keyword(symbol_by_rank(k as usize))) {
        Some(symbol_by_rank(k as usize))
    } else {
        symbol_from_rank(s, i, k + 1)
    }
}

/// The symbol whose name stands at position `i` of `s`, if any.
pub open spec fn symbol_at(s: Seq<char>, i: int) -> Option<ColorSymbol> {
    symbol_from_rank(s, i, 0)
}

/// The digit format at position `p` of `s`, with the number of characters that it takes:
/// `:x`, `:X`, `:o`, `:d`, or `:.` followed by digits that denote a number up to 255.
pub open spec fn digit_format_at(s: Seq<char>, p: int) -> Option<(DigitFormat, nat)> {
    if 0 <= p && p + 1 < s.len() && s[p] == ':' {
        let c = s[p + 1];
        if c == 'x' {
            Some((DigitFormat::Hex, 2))
        } else if c == 'X' {
            Some((DigitFormat::UppercaseHex, 2))
        } else if c == 'o' {
            Some((DigitFormat::Octal, 2))
        } else if c == 'd' {
            Some((DigitFormat::Decimal, 2))
        } else if c == '.' {
            let n = digits_len(s, p + 2);
            let v = decimal_value(s.subrange(p + 2, p + 2 + n));
            if n > 0 && v <= 255 {
                Some((DigitFormat::Float { precision: v as u8 }, 2 + n))
            } else {
                None
            }
        } else {
            None
        }
    } else {
        None
    }
}

/// The color field that starts at position `i` of `s`, with the number of characters it takes.
pub open spec fn color_field_at(s: Seq<char>, i: int) -> Option<(ColorField, nat)> {
    if 0 <= i < s.len() && s[i] == '{' {
        let j = i + 1 + blanks_len(s, i + 1);
        match symbol_at(s, j) {
            None => None,
            Some(symbol) => {
                let k = j + keyword(symbol).len();
                let (digit_format, m) = match digit_format_at(s, k) {
                    Some((f, n)) => (Some(f), k + n),
                    None => (None, k),
                };
                let q = m + blanks_len(s, m);
                if q < s.len() && s[q] == '}' {
                    Some((ColorField { symbol, digit_format }, (q + 1 - i) as nat))
                } else {
                    None
                }
            },
        }
    } else {
        None
    }
}

/// The token at position `i` of `s`, with the number of characters it takes: a color field if
/// one starts there; else a lone `{`; else the text up to the next `{`.
pub open spec fn token_at(s: Seq<char>, i: int) -> (SpecToken, nat) {
    match color_field_at(s, i) {
        Some((f, n)) => (SpecToken::Color(f), n),
        None => if s[i] == '{' {
            (SpecToken::Text(seq!['{']), 1)
        } else {
            let n = text_len(s, i);
            (SpecToken::Text(s.subrange(i, i + n)), n)
        },
    }
}

pub proof fn lemma_token_len_positive(s: Seq<char>, i: int)
    requires
        0 <= i < s.len(),
    ensures
        token_at(s, i).1 >= 1,
        i + token_at(s, i).1 <= s.len(),
{
    lemma_blanks_len_bound(s, i + 1);
    match color_field_at(s, i) {
        Some((f, n)) => {
            let j = i + 1 + blanks_len(s, i + 1);
            let k = j + keyword(f.symbol).len();
            let m = match digit_format_at(s, k) {
                Some((g, l)) => k + l,
                None => k,
            };
            lemma_blanks_len_bound(s, m);
        },
        None => {
            lemma_text_len_bound(s, i);
        },
    }
}

pub proof fn lemma_blanks_len_bound(s: Seq<char>, i: int)
    ensures
        0 <= i <= s.len() ==> i + blanks_len(s, i) <= s.len(),
    decreases s.len() - i,
{
    if 0 <= i < s.len() && is_blank(s[i]) {
        lemma_blanks_len_bound(s, i + 1);
    }
}

pub proof fn lemma_text_len_bound(s: Seq<char>, i: int)
    ensures
        0 <= i <= s.len() ==> i + text_len(s, i) <= s.len(),
    decreases s.len() - i,
{
    if 0 <= i < s.len() && s[i] != '{' {
        lemma_text_len_bound(s, i + 1);
    }
}

/// The tokens of `s` from position `i` on.
pub open spec fn tokens_from(s: Seq<char>, i: int) -> Seq<SpecToken>
    decreases s.len() - i,
{
    if 0 <= i < s.len() {
        let (t, n) = token_at(s, i);
        proof {
            lemma_token_len_positive(s, i);
        }
        seq![t] + tokens_from(s, i + n)
    } else {
        Seq::empty()
    }
}

/// The tokens of a format string.
pub open spec fn parse_tokens(s: Seq<char>) -> Seq<SpecToken> {
    tokens_from(s, 0)
}

} // verus!

verus! {

// ------------------------------------------------------------------------------------------
// The parser
// ------------------------------------------------------------------------------------------

fn is_blank_char(c: char) -> (r: bool)
    ensures
        r == is_blank(c),
{
    c == ' ' || c == '\t'
}

/// The position behind the blanks that start at `i`.
fn blanks_end(cs: &Vec<char>, i: usize) -> (r: usize)
    requires
        i <= cs.len(),
    ensures
        r == i + blanks_len(cs@, i as int),
        r <= cs.len(),
{
    let mut j = i;
    while j < cs.len() && is_blank_char(cs[j])
        invariant
            i <= j <= cs.len(),
            i + blanks_len(cs@, i as int) == j + blanks_len(cs@, j as int),
        decreases cs.len() - j,
    {
        j += 1;
    }
    j
}

/// The position of the next `{` at or behind `i`, or the end.
fn text_end(cs: &Vec<char>, i: usize) -> (r: usize)
    requires
        i <= cs.len(),
    ensures
        r == i + text_len(cs@, i as int),
        r <= cs.len(),
{
    let mut j = i;
    while j < cs.len() && cs[j] != '{'
        invariant
            i <= j <= cs.len(),
            i + text_len(cs@, i as int) == j + text_len(cs@, j as int),
        decreases cs.len() - j,
    {
        j += 1;
    }
    j
}

/// The end of the digits that start at `p`, and the number they denote if it is at most 255.
fn small_decimal_at(cs: &Vec<char>, p: usize) -> (r: (usize, Option<u8>))
    requires
        p <= cs.len(),
    ensures
        r.0 == p + digits_len(cs@, p as int),
        r.0 <= cs.len(),
        ({
            let v = decimal_value(cs@.subrange(p as int, r.0 as int));
            r.1 == if v <= 255 { Some(v as u8) } else { None::<u8> }
        }),
{
    let mut j = p;
    let mut v: u32 = 0;
    while j < cs.len() && '0' <= cs[j] && cs[j] <= '9'
        invariant
            p <= j <= cs.len(),
            p + digits_len(cs@, p as int) == j + digits_len(cs@, j as int),
            v <= 256,
            decimal_value(cs@.subrange(p as int, j as int)) <= 255 ==> v == decimal_value(
                cs@.subrange(p as int, j as int),
            ),
            decimal_value(cs@.subrange(p as int, j as int)) > 255 ==> v == 256,
        decreases cs.len() - j,
    {
        let ghost before = decimal_value(cs@.subrange(p as int, j as int));
        let d = (cs[j] as u32) - 48;
        assert(cs@.subrange(p as int, j + 1).drop_last() =~= cs@.subrange(p as int, j as int));
        if v <= 255 {
            let w = v * 10 + d;
            if w > 255 {
                v = 256;
            } else {
                v = w;
            }
        }
        j += 1;
        assert(decimal_value(cs@.subrange(p as int, j as int)) == before * 10 + d);
    }
    if v <= 255 {
        (j, Some(v as u8))
    } else {
        (j, None)
    }
}

/// Whether `cs` holds `word` at position `i`.
fn matches_at(cs: &Vec<char>, i: usize, word: &Vec<char>) -> (r: bool)
    requires
        i <= cs.len(),
    ensures
        r == starts_with_at(cs@, i as int, word@),
{
    if word.len() > cs.len() - i {
        return false;
    }
    let mut k: usize = 0;
    while k < word.len()
        invariant
            k <= word.len(),
            i + word.len() <= cs.len(),
            forall|l: int| 0 <= l < k ==> cs@[i + l] == word@[l],
        decreases word.len() - k,
    {
        if cs[i + k] != word[k] {
            assert(cs@.subrange(i as int, i + word.len())[k as int] != word@[k as int]);
            return false;
        }
        k += 1;
    }
    assert(cs@.subrange(i as int, i + word.len()) =~= word@);
    true
}

/// The symbol whose name stands at position `i`, trying the names in rank order.
fn symbol_at_pos(cs: &Vec<char>, i: usize) -> (r: Option<ColorSymbol>)
    requires
        i <= cs.len(),
    ensures
        r == symbol_at(cs@, i as int),
{
    let mut k: usize = 0;
    while k < SYMBOL_COUNT
        invariant
            k <= SYMBOL_COUNT,
            i <= cs.len(),
            symbol_at(cs@, i as int) == symbol_from_rank(cs@, i as int, k as nat),
        decreases SYMBOL_COUNT - k,
    {
        let symbol = symbol_at_rank(k);
        let word = keyword_chars(symbol);
        if matches_at(cs, i, &word) {
            return Some(symbol);
        }
        k += 1;
    }
    None
}

/// The digit format at position `p` and the number of characters it takes.
fn digit_format_at_pos(cs: &Vec<char>, p: usize) -> (r: Option<(DigitFormat, usize)>)
    requires
        p <= cs.len(),
    ensures
        match r {
            Some((f, n)) => digit_format_at(cs@, p as int) == Some((f, n as nat)) && p + n <= cs.len(),
            None => digit_format_at(cs@, p as int) is None,
        },
{
    if cs.len() - p < 2 || cs[p] != ':' {
        return None;
    }
    let c = cs[p + 1];
    if c == 'x' {
        Some((DigitFormat::Hex, 2))
    } else if c == 'X' {
        Some((DigitFormat::UppercaseHex, 2))
    } else if c == 'o' {
        Some((DigitFormat::Octal, 2))
    } else if c == 'd' {
        Some((DigitFormat::Decimal, 2))
    } else if c == '.' {
        let (end, value) = small_decimal_at(cs, p + 2);
        match value {
            Some(precision) => {
                if end > p + 2 {
                    Some((DigitFormat::Float { precision }, end - p))
                } else {
                    None
                }
            },
            None => None,
        }
    } else {
        None
    }
}

/// The color field that starts at position `i`, and the number of characters it takes.
fn color_field_at_pos(cs: &Vec<char>, i: usize) -> (r: Option<(ColorField, usize)>)
    requires
        i < cs.len(),
    ensures
        match r {
            Some((f, n)) => color_field_at(cs@, i as int) == Some((f, n as nat)),
            None => color_field_at(cs@, i as int) is None,
        },
{
    if cs[i] != '{' {
        return None;
    }
    let j = blanks_end(cs, i + 1);
    match symbol_at_pos(cs, j) {
        None => None,
        Some(symbol) => {
            proof {
                reveal_with_fuel(symbol_from_rank, 1);
            }
            let word = keyword_chars(symbol);
            assert(starts_with_at(cs@, j as int, keyword(symbol))) by {
                lemma_symbol_from_rank_matches(cs@, j as int, 0);
            }
            let k = j + word.len();
            let (digit_format, m) = match digit_format_at_pos(cs, k) {
                Some((f, n)) => (Some(f), k + n),
                None => (None, k),
            };
            let q = blanks_end(cs, m);
            if q < cs.len() && cs[q] == '}' {
                Some((ColorField { symbol, digit_format }, q + 1 - i))
            } else {
                None
            }
        },
    }
}

proof fn lemma_symbol_from_rank_matches(s: Seq<char>, i: int, k: nat)
    ensures
        symbol_from_rank(s, i, k) matches Some(sym) ==> starts_with_at(s, i, keyword(sym)),
    decreases SYMBOL_COUNT - k,
{
    if k < SYMBOL_COUNT && !starts_with_at(s, i, keyword(symbol_by_rank(k as usize))) {
        lemma_symbol_from_rank_matches(s, i, k + 1);
    }
}

/// The token at position `i`, and the number of characters it takes.
fn token_at_pos(cs: &Vec<char>, i: usize) -> (r: (FormatToken, usize))
    requires
        i < cs.len(),
    ensures
        (r.0@, r.1 as nat) == token_at(cs@, i as int),
{
    match color_field_at_pos(cs, i) {
        Some((f, n)) => (FormatToken::Color(f), n),
        None => {
            if cs[i] == '{' {
                let mut t = String::new();
                crate::text::push_char(&mut t, '{');
                assert(t@ =~= seq!['{']);
                (FormatToken::Text(t), 1)
            } else {
                let e = text_end(cs, i);
                (FormatToken::Text(crate::text::string_of(cs, i, e)), e - i)
            }
        },
    }
}

/// A parsed format string: the sequence of its tokens.
#[derive(Debug)]
pub struct ColorFormat(Vec<FormatToken>);

impl View for ColorFormat {
    type V = Seq<SpecToken>;

    closed spec fn view(&self) -> Seq<SpecToken> {
        self.0@.map_values(|t: FormatToken| t@)
    }
}

impl ColorFormat {
    /// Parses a format string. Every string is a valid format: text that does not form a color
    /// field is kept as text.
    pub fn parse(text: &str) -> (r: Result<ColorFormat, String>)
        ensures
            r is Ok,
            r matches Ok(f) ==> f@ == parse_tokens(text@),
    {
        let cs = crate::text::chars_of(text);
        let mut tokens: Vec<FormatToken> = Vec::new();
        let mut i: usize = 0;
        while i < cs.len()
            invariant
                i <= cs.len(),
                cs@ == text@,
                parse_tokens(cs@) == tokens@.map_values(|t: FormatToken| t@) + tokens_from(
                    cs@,
                    i as int,
                ),
            decreases cs.len() - i,
        {
            let (t, n) = token_at_pos(&cs, i);
            proof {
                lemma_token_len_positive(cs@, i as int);
            }
            let ghost prev = tokens@.map_values(|t: FormatToken| t@);
            let ghost tv = t@;
            tokens.push(t);
            assert(tokens@.map_values(|t: FormatToken| t@) =~= prev.push(tv));
            assert(tokens_from(cs@, i as int) == seq![tv] + tokens_from(cs@, i + n));
            assert(prev + (seq![tv] + tokens_from(cs@, i + n)) =~= prev.push(tv) + tokens_from(
                cs@,
                i + n,
            ));
            i += n;
        }
        assert(tokens@.map_values(|t: FormatToken| t@) + tokens_from(cs@, i as int)
            =~= tokens@.map_values(|t: FormatToken| t@));
        Ok(ColorFormat(tokens))
    }

    /// The tokens of this format, in order.
    pub fn tokens(&self) -> (r: &Vec<FormatToken>)
        ensures
            r@.map_values(|t: FormatToken| t@) == self@,
    {
        &self.0
    }
}

impl From<Vec<FormatToken>> for ColorFormat {
    fn from(tokens: Vec<FormatToken>) -> (r: ColorFormat)
        ensures
            r@ == tokens@.map_values(|t: FormatToken| t@),
    {
        ColorFormat(tokens)
    }
}

impl FromSpecImpl<Vec<FormatToken>> for ColorFormat {
    open spec fn obeys_from_spec() -> bool {
        true
    }

    closed spec fn from_spec(tokens: Vec<FormatToken>) -> ColorFormat {
        ColorFormat(tokens)
    }
}

impl PartialEq for ColorFormat {
    fn eq(&self, other: &Self) -> (r: bool) {
        if self.0.len() != other.0.len() {
            assert(self@.len() != other@.len());
            return false;
        }
        let mut k: usize = 0;
        while k < self.0.len()
            invariant
                k <= self.0.len() == other.0.len(),
                forall|l: int| 0 <= l < k ==> self.0@[l]@ == other.0@[l]@,
            decreases self.0.len() - k,
        {
            if self.0[k] != other.0[k] {
                assert(self@[k as int] != other@[k as int]);
                return false;
            }
            k += 1;
        }
        assert(self@ =~= other@);
        true
    }
}

impl PartialEqSpecImpl for ColorFormat {
    open spec fn obeys_eq_spec() -> bool {
        true
    }

    open spec fn eq_spec(&self, other: &Self) -> bool {
        self@ == other@
    }
}

} // verus!
