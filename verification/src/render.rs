use vstd::prelude::*;
use vstd::string::StringExecFns;

use crate::digits::{float_text, sign_text, DigitFormat};
use crate::export::{css_hsl, css_hsl_text, css_rgb, css_rgb_text};
use crate::format::{parse_tokens, ColorField, ColorFormat, ColorSymbol, FormatToken, SpecToken};
use crate::hex::{hex_code, hex_text};
use crate::text::{ascii_upper, to_ascii_uppercase};
use crate::ui::ColorDisplayFormat;

verus! {

/// The value of one color field of a format, computed from a color.
#[derive(Debug, Clone, Copy, PartialEq, Eq, Structural)]
pub enum FieldValue {
    /// A whole number, its fraction cut off, for a field that `ColorField::renders_whole` says
    /// is written as one: its sign and its magnitude.
    Whole { negative: bool, value: u32 },
    /// A decimal number: its sign, its whole part, and the `fract_len` digits of its fraction
    /// read as the integer `fract` (`0.05` has `fract` 5 and `fract_len` 2).
    Decimal { negative: bool, whole: u32, fract: u32, fract_len: u32 },
    /// A number that is not finite, or is subnormal: nothing is written for it.
    Skipped,
}

impl ColorField {
    /// A field is written as a whole number when it names an 8-bit RGB channel, or when its
    /// digit format is one of the integer radixes.
    pub open spec fn spec_renders_whole(&self) -> bool {
        match self.symbol {
            ColorSymbol::Red255 | ColorSymbol::Green255 | ColorSymbol::Blue255 => true,
            _ => match self.digit_format {
                Some(DigitFormat::Float { .. }) => false,
                Some(_) => true,
                None => false,
            },
        }
    }

    /// Whether this field is written as a whole number (otherwise as a decimal number).
    pub fn renders_whole(&self) -> (r: bool)
        ensures
            r == self.spec_renders_whole(),
    {
        match self.symbol {
            ColorSymbol::Red255 | ColorSymbol::Green255 | ColorSymbol::Blue255 => true,
            _ => match self.digit_format {
                Some(DigitFormat::Float { .. }) => false,
                Some(_) => true,
                None => false,
            },
        }
    }

    /// The format of a whole number in this field: its digit format, decimal by default.
    pub open spec fn spec_whole_format(&self) -> DigitFormat {
        match self.digit_format {
            Some(f) => f,
            None => DigitFormat::Decimal,
        }
    }

    pub fn whole_format(&self) -> (r: DigitFormat)
        ensures
            r == self.spec_whole_format(),
    {
        match self.digit_format {
            Some(f) => f,
            None => DigitFormat::Decimal,
        }
    }

    /// The number of fraction digits of a decimal number in this field, if the format gives one.
    pub open spec fn spec_precision(&self) -> Option<u8> {
        match self.digit_format {
            Some(DigitFormat::Float { precision }) => Some(precision),
            _ => None,
        }
    }

    pub fn precision(&self) -> (r: Option<u8>)
        ensures
            r == self.spec_precision(),
    {
        match self.digit_format {
            Some(DigitFormat::Float { precision }) => Some(precision),
            _ => None,
        }
    }
}

/// The text written for a color field with the given value.
pub open spec fn field_text(field: ColorField, v: FieldValue) -> Seq<char> {
    match v {
        FieldValue::Whole { negative, value } => sign_text(negative)
            + field.spec_whole_format().number_text(value as nat),
        FieldValue::Decimal { negative, whole, fract, fract_len } => float_text(
            negative,
            whole as nat,
            fract as nat,
            fract_len as nat,
            field.spec_precision(),
        ),
        FieldValue::Skipped => Seq::empty(),
    }
}

/// The text written for a token: text as it is, a color field by its value.
pub open spec fn token_text(t: SpecToken, v: FieldValue) -> Seq<char> {
    match t {
        SpecToken::Text(s) => s,
        SpecToken::Color(f) => field_text(f, v),
    }
}

/// The text written for the first `n` tokens, the `i`-th color field taking the `i`-th value.
pub open spec fn formatted(ts: Seq<SpecToken>, vs: Seq<FieldValue>, n: nat) -> Seq<char>
    decreases n,
{
    if n == 0 {
        Seq::empty()
    } else {
        formatted(ts, vs, (n - 1) as nat) + token_text(ts[n - 1], vs[n - 1])
    }
}

impl ColorFormat {
    /// Writes a color by this format: each text token as it is, and the color field at
    /// position `i` by `values[i]` (the values of the text tokens are not read).
    pub fn format_color(&self, values: &Vec<FieldValue>) -> (r: String)
        requires
            values.len() == self@.len(),
        ensures
            r@ == formatted(self@, values@, self@.len()),
    {
        let tokens = self.tokens();
        let mut s = String::new();
        let mut stack: Vec<u32> = Vec::new();
        let mut i: usize = 0;
        while i < tokens.len()
            invariant
                i <= tokens.len(),
                tokens@.map_values(|t: FormatToken| t@) == self@,
                values.len() == self@.len(),
                stack@.len() == 0,
                s@ == formatted(self@, values@, i as nat),
            decreases tokens.len() - i,
        {
            let ghost before = s@;
            assert(self@[i as int] == tokens@[i as int]@);
            match &tokens[i] {
                FormatToken::Text(t) => {
                    s.append(t.as_str());
                },
                FormatToken::Color(field) => {
                    match values[i] {
                        FieldValue::Whole { negative, value } => {
                            if negative {
                                crate::text::push_char(&mut s, '-');
                            }
                            let fmt = field.whole_format();
                            let ghost ds = crate::digits::digits_of(value as nat, fmt.spec_radix() as nat);
                            assert(ds + stack@.reverse() =~= ds);
                            fmt.format_num(value, &mut s, &mut stack);
                        },
                        FieldValue::Decimal { negative, whole, fract, fract_len } => {
                            let ghost ds = crate::digits::digits_of(whole as nat, 10);
                            assert(ds + stack@.reverse() =~= ds);
                            DigitFormat::format_float(
                                negative,
                                whole,
                                fract,
                                fract_len,
                                &mut s,
                                &mut stack,
                                field.precision(),
                            );
                        },
                        FieldValue::Skipped => {},
                    }
                },
            }
            assert(s@ =~= before + token_text(self@[i as int], values@[i as int]));
            i += 1;
        }
        s
    }
}

proof fn lemma_formatted_agree(
    ts1: Seq<SpecToken>,
    vs1: Seq<FieldValue>,
    ts2: Seq<SpecToken>,
    vs2: Seq<FieldValue>,
    n: nat,
)
    requires
        forall|i: int| 0 <= i < n ==> ts1[i] == ts2[i] && vs1[i] == vs2[i],
    ensures
        formatted(ts1, vs1, n) == formatted(ts2, vs2, n),
    decreases n,
{
    if n > 0 {
        lemma_formatted_agree(ts1, vs1, ts2, vs2, (n - 1) as nat);
    }
}

proof fn lemma_formatted_concat(
    ta: Seq<SpecToken>,
    va: Seq<FieldValue>,
    tb: Seq<SpecToken>,
    vb: Seq<FieldValue>,
    k: nat,
)
    requires
        va.len() == ta.len(),
        vb.len() == tb.len(),
        k <= tb.len(),
    ensures
        formatted(ta + tb, va + vb, ta.len() + k) == formatted(ta, va, ta.len()) + formatted(tb, vb, k),
    decreases k,
{
    if k == 0 {
        lemma_formatted_agree(ta + tb, va + vb, ta, va, ta.len());
        assert(formatted(tb, vb, 0) =~= Seq::<char>::empty());
        assert(formatted(ta, va, ta.len()) + Seq::<char>::empty() =~= formatted(ta, va, ta.len()));
    } else {
        lemma_formatted_concat(ta, va, tb, vb, (k - 1) as nat);
        let n = ta.len() + k;
        assert((ta + tb)[n - 1] == tb[k - 1]);
        assert((va + vb)[n - 1] == vb[k - 1]);
        assert(formatted(ta + tb, va + vb, n) =~= formatted(ta, va, ta.len()) + formatted(tb, vb, k));
    }
}

/// Writing a color by a format made of two formats one after the other writes it by the first
/// and then by the second.
pub proof fn law_format_concat(
    ta: Seq<SpecToken>,
    va: Seq<FieldValue>,
    tb: Seq<SpecToken>,
    vb: Seq<FieldValue>,
)
    requires
        va.len() == ta.len(),
        vb.len() == tb.len(),
    ensures
        formatted(ta + tb, va + vb, (ta + tb).len()) == formatted(ta, va, ta.len()) + formatted(
            tb,
            vb,
            tb.len(),
        ),
{
    lemma_formatted_concat(ta, va, tb, vb, tb.len());
}

/// A text token is written as it is, whatever value stands beside it.
pub proof fn law_text_token_prints_itself(t: Seq<char>, v: FieldValue)
    ensures
        formatted(seq![SpecToken::Text(t)], seq![v], 1) == t,
{
    assert(formatted(seq![SpecToken::Text(t)], seq![v], 0) == Seq::<char>::empty());
    assert(Seq::<char>::empty() + t =~= t);
}

/// The text of a color in a display format, from its 8-bit channels `rgb`, its hue in degrees
/// with its saturation and lightness in percent `hsl`, and the values `fields` of the tokens of a
/// custom format.
pub open spec fn display_text(
    format: ColorDisplayFormat,
    rgb: (u8, u8, u8),
    hsl: (u16, u16, u16),
    fields: Seq<FieldValue>,
) -> Seq<char> {
    match format {
        ColorDisplayFormat::Hex => seq!['#'] + hex_text(rgb.0, rgb.1, rgb.2),
        ColorDisplayFormat::HexUpercase => (seq!['#'] + hex_text(rgb.0, rgb.1, rgb.2)).map_values(
            |c: char| ascii_upper(c),
        ),
        ColorDisplayFormat::CssRgb => css_rgb_text(rgb.0, rgb.1, rgb.2),
        ColorDisplayFormat::CssHsl { degree_symbol } => css_hsl_text(
            hsl.0,
            hsl.1,
            hsl.2,
            degree_symbol,
        ),
        ColorDisplayFormat::Custom(f) => formatted(parse_tokens(f@), fields, parse_tokens(f@).len()),
    }
}

impl<'fmt> ColorDisplayFormat<'fmt> {
    /// Writes a color in this format: `#rrggbb` in lower or upper case, CSS `rgb(..)` or
    /// `hsl(..)`, or a custom format whose `i`-th token takes `fields[i]` (read only for a
    /// custom format).
    pub fn display(&self, rgb: (u8, u8, u8), hsl: (u16, u16, u16), fields: &Vec<FieldValue>) -> (r:
        String)
        requires
            self matches ColorDisplayFormat::Custom(f) ==> fields@.len() == parse_tokens(f@).len(),
        ensures
            r@ == display_text(*self, rgb, hsl, fields@),
    {
        match self {
            ColorDisplayFormat::Hex => hex_code(rgb.0, rgb.1, rgb.2),
            ColorDisplayFormat::HexUpercase => {
                let hex = hex_code(rgb.0, rgb.1, rgb.2);
                to_ascii_uppercase(hex.as_str())
            },
            ColorDisplayFormat::CssRgb => css_rgb(rgb.0, rgb.1, rgb.2),
            ColorDisplayFormat::CssHsl { degree_symbol } => css_hsl(
                hsl.0,
                hsl.1,
                hsl.2,
                *degree_symbol,
            ),
            ColorDisplayFormat::Custom(f) => match ColorFormat::parse(f) {
                Ok(fmt) => fmt.format_color(fields),
                Err(_) => hex_code(rgb.0, rgb.1, rgb.2),
            },
        }
    }
}

} // verus!
