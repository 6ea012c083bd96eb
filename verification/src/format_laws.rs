use vstd::prelude::*;

use crate::digits::{law_decimal_text_reads_back, DigitFormat};
use crate::format::{
    blanks_len, color_field_at, digit_format_at, digits_len, decimal_value, is_blank, is_digit, keyword,
    parse_tokens, starts_with_at, symbol_at, symbol_by_rank, symbol_from_rank, token_at, tokens_from,
    ColorField, ColorSymbol, SpecToken, SYMBOL_COUNT,
};

verus! {

/// The position of a symbol in the order in which the parser tries the names.
pub open spec fn rank_of(symbol: ColorSymbol) -> usize {
    match symbol {
        ColorSymbol::Red255 => 0,
        ColorSymbol::Green255 => 1,
        ColorSymbol::Blue255 => 2,
        ColorSymbol::Red => 3,
        ColorSymbol::Green => 4,
        ColorSymbol::Blue => 5,
        ColorSymbol::Cyan100 => 6,
        ColorSymbol::Magenta100 => 7,
        ColorSymbol::Yellow100 => 8,
        ColorSymbol::Key100 => 9,
        ColorSymbol::Cyan => 10,
        ColorSymbol::Magenta => 11,
        ColorSymbol::Yellow => 12,
        ColorSymbol::Key => 13,
        ColorSymbol::HSLHue360 => 14,
        ColorSymbol::HSLSaturation100 => 15,
        ColorSymbol::HSLLight100 => 16,
        ColorSymbol::HSLHue => 17,
        ColorSymbol::HSLSaturation => 18,
        ColorSymbol::HSLLight => 19,
        ColorSymbol::HSVHue360 => 20,
        ColorSymbol::HSVSaturation100 => 21,
        ColorSymbol::HSVValue100 => 22,
        ColorSymbol::HSVHue => 23,
        ColorSymbol::HSVSaturation => 24,
        ColorSymbol::HSVValue => 25,
        ColorSymbol::LabL => 26,
        ColorSymbol::LabA => 27,
        ColorSymbol::LabB => 28,
        ColorSymbol::LCHabL => 29,
        ColorSymbol::LCHabC => 30,
        ColorSymbol::LCHabH => 31,
        ColorSymbol::LuvL => 32,
        ColorSymbol::LuvU => 33,
        ColorSymbol::LuvV => 34,
        ColorSymbol::LCHuvL => 35,
        ColorSymbol::LCHuvC => 36,
        ColorSymbol::LCHuvH => 37,
        ColorSymbol::xyYx => 38,
        ColorSymbol::xyYy => 39,
        ColorSymbol::xyYY => 40,
        ColorSymbol::XYZx => 41,
        ColorSymbol::XYZy => 42,
        ColorSymbol::XYZz => 43,
    }
}


/// A character that may end a name inside a field: the start of a digit format, a blank, or the
/// closing brace.
pub open spec fn ends_name(c: char) -> bool {
    c == ':' || c == ' ' || c == '\t' || c == '}'
}

/// Where `w` stands at `j`, followed by a character that ends a name, a name `k` that differs
/// from `w` at position `p`, or that goes on where `w` ends, does not stand at `j`.
proof fn lemma_no_match(s: Seq<char>, j: int, w: Seq<char>, k: Seq<char>, p: int)
    requires
        starts_with_at(s, j, w),
        j + w.len() < s.len(),
        ends_name(s[j + w.len()]),
        0 <= p <= w.len(),
        p < k.len(),
        p < w.len() ==> k[p] != w[p],
        p == w.len() ==> !ends_name(k[p]),
    ensures
        !starts_with_at(s, j, k),
{
    if starts_with_at(s, j, k) {
        assert(s.subrange(j, j + k.len())[p] == k[p]);
        if p < w.len() {
            assert(s.subrange(j, j + w.len())[p] == w[p]);
        }
    }
}

/// When no name of rank `k` up to `r` stands at `j` but the name of rank `r` does, the symbol
/// found from rank `k` on is the one of rank `r`.
proof fn lemma_first_match(s: Seq<char>, j: int, k: nat, r: nat)
    requires
        k <= r < SYMBOL_COUNT,
        forall|m: nat| k <= m < r ==> !starts_with_at(s, j, #[trigger] keyword(symbol_by_rank(m as usize))),
        starts_with_at(s, j, keyword(symbol_by_rank(r as usize))),
    ensures
        symbol_from_rank(s, j, k) == Some(symbol_by_rank(r as usize)),
    decreases r - k,
{
    if k < r {
        assert(!starts_with_at(s, j, keyword(symbol_by_rank(k as usize))));
        lemma_first_match(s, j, k + 1, r);
    }
}

/// The symbol found where the name of `symbol` stands, followed by a character that ends a
/// name, is `symbol`.
pub proof fn lemma_symbol_found(s: Seq<char>, j: int, symbol: ColorSymbol)
    requires
        starts_with_at(s, j, keyword(symbol)),
        j + keyword(symbol).len() < s.len(),
        ends_name(s[j + keyword(symbol).len()]),
    ensures
        symbol_at(s, j) == Some(symbol),
{
    match symbol {
        ColorSymbol::Red255 => lemma_found_red255(s, j),
        ColorSymbol::Green255 => lemma_found_green255(s, j),
        ColorSymbol::Blue255 => lemma_found_blue255(s, j),
        ColorSymbol::Red => lemma_found_red(s, j),
        ColorSymbol::Green => lemma_found_green(s, j),
        ColorSymbol::Blue => lemma_found_blue(s, j),
        ColorSymbol::Cyan100 => lemma_found_cyan100(s, j),
        ColorSymbol::Magenta100 => lemma_found_magenta100(s, j),
        ColorSymbol::Yellow100 => lemma_found_yellow100(s, j),
        ColorSymbol::Key100 => lemma_found_key100(s, j),
        ColorSymbol::Cyan => lemma_found_cyan(s, j),
        ColorSymbol::Magenta => lemma_found_magenta(s, j),
        ColorSymbol::Yellow => lemma_found_yellow(s, j),
        ColorSymbol::Key => lemma_found_key(s, j),
        ColorSymbol::HSLHue360 => lemma_found_hslhue360(s, j),
        ColorSymbol::HSLSaturation100 => lemma_found_hslsaturation100(s, j),
        ColorSymbol::HSLLight100 => lemma_found_hsllight100(s, j),
        ColorSymbol::HSLHue => lemma_found_hslhue(s, j),
        ColorSymbol::HSLSaturation => lemma_found_hslsaturation(s, j),
        ColorSymbol::HSLLight => lemma_found_hsllight(s, j),
        ColorSymbol::HSVHue360 => lemma_found_hsvhue360(s, j),
        ColorSymbol::HSVSaturation100 => lemma_found_hsvsaturation100(s, j),
        ColorSymbol::HSVValue100 => lemma_found_hsvvalue100(s, j),
        ColorSymbol::HSVHue => lemma_found_hsvhue(s, j),
        ColorSymbol::HSVSaturation => lemma_found_hsvsaturation(s, j),
        ColorSymbol::HSVValue => lemma_found_hsvvalue(s, j),
        ColorSymbol::LabL => lemma_found_lab_l(s, j),
        ColorSymbol::LabA => lemma_found_lab_a(s, j),
        ColorSymbol::LabB => lemma_found_lab_b(s, j),
        ColorSymbol::LCHabL => lemma_found_lchab_l(s, j),
        ColorSymbol::LCHabC => lemma_found_lchab_c(s, j),
        ColorSymbol::LCHabH => lemma_found_lchab_h(s, j),
        ColorSymbol::LuvL => lemma_found_luv_l(s, j),
        ColorSymbol::LuvU => lemma_found_luv_u(s, j),
        ColorSymbol::LuvV => lemma_found_luv_v(s, j),
        ColorSymbol::LCHuvL => lemma_found_lchuv_l(s, j),
        ColorSymbol::LCHuvC => lemma_found_lchuv_c(s, j),
        ColorSymbol::LCHuvH => lemma_found_lchuv_h(s, j),
        ColorSymbol::xyYx => lemma_found_xyy_x(s, j),
        ColorSymbol::xyYy => lemma_found_xyy_y(s, j),
        ColorSymbol::xyYY => lemma_found_xyy_big_y(s, j),
        ColorSymbol::XYZx => lemma_found_xyzx(s, j),
        ColorSymbol::XYZy => lemma_found_xyzy(s, j),
        ColorSymbol::XYZz => lemma_found_xyzz(s, j),
    }
}

proof fn lemma_found_red255(s: Seq<char>, j: int)
    requires
        starts_with_at(s, j, keyword(ColorSymbol::Red255)),
        j + keyword(ColorSymbol::Red255).len() < s.len(),
        ends_name(s[j + keyword(ColorSymbol::Red255).len()]),
    ensures
        symbol_at(s, j) == Some(ColorSymbol::Red255),
{
    lemma_first_match(s, j, 0, 0);
}

proof fn lemma_found_green255(s: Seq<char>, j: int)
    requires
        starts_with_at(s, j, keyword(ColorSymbol::Green255)),
        j + keyword(ColorSymbol::Green255).len() < s.len(),
        ends_name(s[j + keyword(ColorSymbol::Green255).len()]),
    ensures
        symbol_at(s, j) == Some(ColorSymbol::Green255),
{
    lemma_no_match(s, j, keyword(ColorSymbol::Green255), keyword(ColorSymbol::Red255), 0);
    lemma_first_match(s, j, 0, 1);
}

proof fn lemma_found_blue255(s: Seq<char>, j: int)
    requires
        starts_with_at(s, j, keyword(ColorSymbol::Blue255)),
        j + keyword(ColorSymbol::Blue255).len() < s.len(),
        ends_name(s[j + keyword(ColorSymbol::Blue255).len()]),
    ensures
        symbol_at(s, j) == Some(ColorSymbol::Blue255),
{
    lemma_no_match(s, j, keyword(ColorSymbol::Blue255), keyword(ColorSymbol::Red255), 0);
    lemma_no_match(s, j, keyword(ColorSymbol::Blue255), keyword(ColorSymbol::Green255), 0);
    lemma_first_match(s, j, 0, 2);
}

proof fn lemma_found_red(s: Seq<char>, j: int)
    requires
        starts_with_at(s, j, keyword(ColorSymbol::Red)),
        j + keyword(ColorSymbol::Red).len() < s.len(),
        ends_name(s[j + keyword(ColorSymbol::Red).len()]),
    ensures
        symbol_at(s, j) == Some(ColorSymbol::Red),
{
    lemma_no_match(s, j, keyword(ColorSymbol::Red), keyword(ColorSymbol::Red255), 1);
    lemma_no_match(s, j, keyword(ColorSymbol::Red), keyword(ColorSymbol::Green255), 0);
    lemma_no_match(s, j, keyword(ColorSymbol::Red), keyword(ColorSymbol::Blue255), 0);
    lemma_first_match(s, j, 0, 3);
}

proof fn lemma_found_green(s: Seq<char>, j: int)
    requires
        starts_with_at(s, j, keyword(ColorSymbol::Green)),
        j + keyword(ColorSymbol::Green).len() < s.len(),
        ends_name(s[j + keyword(ColorSymbol::Green).len()]),
    ensures
        symbol_at(s, j) == Some(ColorSymbol::Green),
{
    lemma_no_match(s, j, keyword(ColorSymbol::Green), keyword(ColorSymbol::Red255), 0);
    lemma_no_match(s, j, keyword(ColorSymbol::Green), keyword(ColorSymbol::Green255), 1);
    lemma_no_match(s, j, keyword(ColorSymbol::Green), keyword(ColorSymbol::Blue255), 0);
    lemma_no_match(s, j, keyword(ColorSymbol::Green), keyword(ColorSymbol::Red), 0);
    lemma_first_match(s, j, 0, 4);
}

proof fn lemma_found_blue(s: Seq<char>, j: int)
    requires
        starts_with_at(s, j, keyword(ColorSymbol::Blue)),
        j + keyword(ColorSymbol::Blue).len() < s.len(),
        ends_name(s[j + keyword(ColorSymbol::Blue).len()]),
    ensures
        symbol_at(s, j) == Some(ColorSymbol::Blue),
{
    lemma_no_match(s, j, keyword(ColorSymbol::Blue), keyword(ColorSymbol::Red255), 0);
    lemma_no_match(s, j, keyword(ColorSymbol::Blue), keyword(ColorSymbol::Green255), 0);
    lemma_no_match(s, j, keyword(ColorSymbol::Blue), keyword(ColorSymbol::Blue255), 1);
    lemma_no_match(s, j, keyword(ColorSymbol::Blue), keyword(ColorSymbol::Red), 0);
    lemma_no_match(s, j, keyword(ColorSymbol::Blue), keyword(ColorSymbol::Green), 0);
    lemma_first_match(s, j, 0, 5);
}

proof fn lemma_found_cyan100(s: Seq<char>, j: int)
    requires
        starts_with_at(s, j, keyword(ColorSymbol::Cyan100)),
        j + keyword(ColorSymbol::Cyan100).len() < s.len(),
        ends_name(s[j + keyword(ColorSymbol::Cyan100).len()]),
    ensures
        symbol_at(s, j) == Some(ColorSymbol::Cyan100),
{
    lemma_no_match(s, j, keyword(ColorSymbol::Cyan100), keyword(ColorSymbol::Red255), 0);
    lemma_no_match(s, j, keyword(ColorSymbol::Cyan100), keyword(ColorSymbol::Green255), 0);
    lemma_no_match(s, j, keyword(ColorSymbol::Cyan100), keyword(ColorSymbol::Blue255), 0);
    lemma_no_match(s, j, keyword(ColorSymbol::Cyan100), keyword(ColorSymbol::Red), 0);
    lemma_no_match(s, j, keyword(ColorSymbol::Cyan100), keyword(ColorSymbol::Green), 0);
    lemma_no_match(s, j, keyword(ColorSymbol::Cyan100), keyword(ColorSymbol::Blue), 0);
    lemma_first_match(s, j, 0, 6);
}

proof fn lemma_found_magenta100(s: Seq<char>, j: int)
    requires
        starts_with_at(s, j, keyword(ColorSymbol::Magenta100)),
        j + keyword(ColorSymbol::Magenta100).len() < s.len(),
        ends_name(s[j + keyword(ColorSymbol::Magenta100).len()]),
    ensures
        symbol_at(s, j) == Some(ColorSymbol::Magenta100),
{
    lemma_no_match(s, j, keyword(ColorSymbol::Magenta100), keyword(ColorSymbol::Red255), 0);
    lemma_no_match(s, j, keyword(ColorSymbol::Magenta100), keyword(ColorSymbol::Green255), 0);
    lemma_no_match(s, j, keyword(ColorSymbol::Magenta100), keyword(ColorSymbol::Blue255), 0);
    lemma_no_match(s, j, keyword(ColorSymbol::Magenta100), keyword(ColorSymbol::Red), 0);
    lemma_no_match(s, j, keyword(ColorSymbol::Magenta100), keyword(ColorSymbol::Green), 0);
    lemma_no_match(s, j, keyword(ColorSymbol::Magenta100), keyword(ColorSymbol::Blue), 0);
    lemma_no_match(s, j, keyword(ColorSymbol::Magenta100), keyword(ColorSymbol::Cyan100), 0);
    lemma_first_match(s, j, 0, 7);
}

proof fn lemma_found_yellow100(s: Seq<char>, j: int)
    requires
        starts_with_at(s, j, keyword(ColorSymbol::Yellow100)),
        j + keyword(ColorSymbol::Yellow100).len() < s.len(),
        ends_name(s[j + keyword(ColorSymbol::Yellow100).len()]),
    ensures
        symbol_at(s, j) == Some(ColorSymbol::Yellow100),
{
    lemma_no_match(s, j, keyword(ColorSymbol::Yellow100), keyword(ColorSymbol::Red255), 0);
    lemma_no_match(s, j, keyword(ColorSymbol::Yellow100), keyword(ColorSymbol::Green255), 0);
    lemma_no_match(s, j, keyword(ColorSymbol::Yellow100), keyword(ColorSymbol::Blue255), 0);
    lemma_no_match(s, j, keyword(ColorSymbol::Yellow100), keyword(ColorSymbol::Red), 0);
    lemma_no_match(s, j, keyword(ColorSymbol::Yellow100), keyword(ColorSymbol::Green), 0);
    lemma_no_match(s, j, keyword(ColorSymbol::Yellow100), keyword(ColorSymbol::Blue), 0);
    lemma_no_match(s, j, keyword(ColorSymbol::Yellow100), keyword(ColorSymbol::Cyan100), 0);
    lemma_no_match(s, j, keyword(ColorSymbol::Yellow100), keyword(ColorSymbol::Magenta100), 0);
    lemma_first_match(s, j, 0, 8);
}

proof fn lemma_found_key100(s: Seq<char>, j: int)
    requires
        starts_with_at(s, j, keyword(ColorSymbol::Key100)),
        j + keyword(ColorSymbol::Key100).len() < s.len(),
        ends_name(s[j + keyword(ColorSymbol::Key100).len()]),
    ensures
        symbol_at(s, j) == Some(ColorSymbol::Key100),
{
    lemma_no_match(s, j, keyword(ColorSymbol::Key100), keyword(ColorSymbol::Red255), 0);
    lemma_no_match(s, j, keyword(ColorSymbol::Key100), keyword(ColorSymbol::Green255), 0);
    lemma_no_match(s, j, keyword(ColorSymbol::Key100), keyword(ColorSymbol::Blue255), 0);
    lemma_no_match(s, j, keyword(ColorSymbol::Key100), keyword(ColorSymbol::Red), 0);
    lemma_no_match(s, j, keyword(ColorSymbol::Key100), keyword(ColorSymbol::Green), 0);
    lemma_no_match(s, j, keyword(ColorSymbol::Key100), keyword(ColorSymbol::Blue), 0);
    lemma_no_match(s, j, keyword(ColorSymbol::Key100), keyword(ColorSymbol::Cyan100), 0);
    lemma_no_match(s, j, keyword(ColorSymbol::Key100), keyword(ColorSymbol::Magenta100), 0);
    lemma_no_match(s, j, keyword(ColorSymbol::Key100), keyword(ColorSymbol::Yellow100), 0);
    lemma_first_match(s, j, 0, 9);
}

proof fn lemma_found_cyan(s: Seq<char>, j: int)
    requires
        starts_with_at(s, j, keyword(ColorSymbol::Cyan)),
        j + keyword(ColorSymbol::Cyan).len() < s.len(),
        ends_name(s[j + keyword(ColorSymbol::Cyan).len()]),
    ensures
        symbol_at(s, j) == Some(ColorSymbol::Cyan),
{
    lemma_no_match(s, j, keyword(ColorSymbol::Cyan), keyword(ColorSymbol::Red255), 0);
    lemma_no_match(s, j, keyword(ColorSymbol::Cyan), keyword(ColorSymbol::Green255), 0);
    lemma_no_match(s, j, keyword(ColorSymbol::Cyan), keyword(ColorSymbol::Blue255), 0);
    lemma_no_match(s, j, keyword(ColorSymbol::Cyan), keyword(ColorSymbol::Red), 0);
    lemma_no_match(s, j, keyword(ColorSymbol::Cyan), keyword(ColorSymbol::Green), 0);
    lemma_no_match(s, j, keyword(ColorSymbol::Cyan), keyword(ColorSymbol::Blue), 0);
    lemma_no_match(s, j, keyword(ColorSymbol::Cyan), keyword(ColorSymbol::Cyan100), 1);
    lemma_no_match(s, j, keyword(ColorSymbol::Cyan), keyword(ColorSymbol::Magenta100), 0);
    lemma_no_match(s, j, keyword(ColorSymbol::Cyan), keyword(ColorSymbol::Yellow100), 0);
    lemma_no_match(s, j, keyword(ColorSymbol::Cyan), keyword(ColorSymbol::Key100), 0);
    lemma_first_match(s, j, 0, 10);
}

proof fn lemma_found_magenta(s: Seq<char>, j: int)
    requires
        starts_with_at(s, j, keyword(ColorSymbol::Magenta)),
        j + keyword(ColorSymbol::Magenta).len() < s.len(),
        ends_name(s[j + keyword(ColorSymbol::Magenta).len()]),
    ensures
        symbol_at(s, j) == Some(ColorSymbol::Magenta),
{
    lemma_no_match(s, j, keyword(ColorSymbol::Magenta), keyword(ColorSymbol::Red255), 0);
    lemma_no_match(s, j, keyword(ColorSymbol::Magenta), keyword(ColorSymbol::Green255), 0);
    lemma_no_match(s, j, keyword(ColorSymbol::Magenta), keyword(ColorSymbol::Blue255), 0);
    lemma_no_match(s, j, keyword(ColorSymbol::Magenta), keyword(ColorSymbol::Red), 0);
    lemma_no_match(s, j, keyword(ColorSymbol::Magenta), keyword(ColorSymbol::Green), 0);
    lemma_no_match(s, j, keyword(ColorSymbol::Magenta), keyword(ColorSymbol::Blue), 0);
    lemma_no_match(s, j, keyword(ColorSymbol::Magenta), keyword(ColorSymbol::Cyan100), 0);
    lemma_no_match(s, j, keyword(ColorSymbol::Magenta), keyword(ColorSymbol::Magenta100), 1);
    lemma_no_match(s, j, keyword(ColorSymbol::Magenta), keyword(ColorSymbol::Yellow100), 0);
    lemma_no_match(s, j, keyword(ColorSymbol::Magenta), keyword(ColorSymbol::Key100), 0);
    lemma_no_match(s, j, keyword(ColorSymbol::Magenta), keyword(ColorSymbol::Cyan), 0);
    lemma_first_match(s, j, 0, 11);
}

proof fn lemma_found_yellow(s: Seq<char>, j: int)
    requires
        starts_with_at(s, j, keyword(ColorSymbol::Yellow)),
        j + keyword(ColorSymbol::Yellow).len() < s.len(),
        ends_name(s[j + keyword(ColorSymbol::Yellow).len()]),
    ensures
        symbol_at(s, j) == Some(ColorSymbol::Yellow),
{
    lemma_no_match(s, j, keyword(ColorSymbol::Yellow), keyword(ColorSymbol::Red255), 0);
    lemma_no_match(s, j, keyword(ColorSymbol::Yellow), keyword(ColorSymbol::Green255), 0);
    lemma_no_match(s, j, keyword(ColorSymbol::Yellow), keyword(ColorSymbol::Blue255), 0);
    lemma_no_match(s, j, keyword(ColorSymbol::Yellow), keyword(ColorSymbol::Red), 0);
    lemma_no_match(s, j, keyword(ColorSymbol::Yellow), keyword(ColorSymbol::Green), 0);
    lemma_no_match(s, j, keyword(ColorSymbol::Yellow), keyword(ColorSymbol::Blue), 0);
    lemma_no_match(s, j, keyword(ColorSymbol::Yellow), keyword(ColorSymbol::Cyan100), 0);
    lemma_no_match(s, j, keyword(ColorSymbol::Yellow), keyword(ColorSymbol::Magenta100), 0);
    lemma_no_match(s, j, keyword(ColorSymbol::Yellow), keyword(ColorSymbol::Yellow100), 1);
    lemma_no_match(s, j, keyword(ColorSymbol::Yellow), keyword(ColorSymbol::Key100), 0);
    lemma_no_match(s, j, keyword(ColorSymbol::Yellow), keyword(ColorSymbol::Cyan), 0);
    lemma_no_match(s, j, keyword(ColorSymbol::Yellow), keyword(ColorSymbol::Magenta), 0);
    lemma_first_match(s, j, 0, 12);
}

proof fn lemma_found_key(s: Seq<char>, j: int)
    requires
        starts_with_at(s, j, keyword(ColorSymbol::Key)),
        j + keyword(ColorSymbol::Key).len() < s.len(),
        ends_name(s[j + keyword(ColorSymbol::Key).len()]),
    ensures
        symbol_at(s, j) == Some(ColorSymbol::Key),
{
    lemma_no_match(s, j, keyword(ColorSymbol::Key), keyword(ColorSymbol::Red255), 0);
    lemma_no_match(s, j, keyword(ColorSymbol::Key), keyword(ColorSymbol::Green255), 0);
    lemma_no_match(s, j, keyword(ColorSymbol::Key), keyword(ColorSymbol::Blue255), 0);
    lemma_no_match(s, j, keyword(ColorSymbol::Key), keyword(ColorSymbol::Red), 0);
    lemma_no_match(s, j, keyword(ColorSymbol::Key), keyword(ColorSymbol::Green), 0);
    lemma_no_match(s, j, keyword(ColorSymbol::Key), keyword(ColorSymbol::Blue), 0);
    lemma_no_match(s, j, keyword(ColorSymbol::Key), keyword(ColorSymbol::Cyan100), 0);
    lemma_no_match(s, j, keyword(ColorSymbol::Key), keyword(ColorSymbol::Magenta100), 0);
    lemma_no_match(s, j, keyword(ColorSymbol::Key), keyword(ColorSymbol::Yellow100), 0);
    lemma_no_match(s, j, keyword(ColorSymbol::Key), keyword(ColorSymbol::Key100), 1);
    lemma_no_match(s, j, keyword(ColorSymbol::Key), keyword(ColorSymbol::Cyan), 0);
    lemma_no_match(s, j, keyword(ColorSymbol::Key), keyword(ColorSymbol::Magenta), 0);
    lemma_no_match(s, j, keyword(ColorSymbol::Key), keyword(ColorSymbol::Yellow), 0);
    lemma_first_match(s, j, 0, 13);
}

proof fn lemma_found_hslhue360(s: Seq<char>, j: int)
    requires
        starts_with_at(s, j, keyword(ColorSymbol::HSLHue360)),
        j + keyword(ColorSymbol::HSLHue360).len() < s.len(),
        ends_name(s[j + keyword(ColorSymbol::HSLHue360).len()]),
    ensures
        symbol_at(s, j) == Some(ColorSymbol::HSLHue360),
{
    lemma_no_match(s, j, keyword(ColorSymbol::HSLHue360), keyword(ColorSymbol::Red255), 0);
    lemma_no_match(s, j, keyword(ColorSymbol::HSLHue360), keyword(ColorSymbol::Green255), 0);
    lemma_no_match(s, j, keyword(ColorSymbol::HSLHue360), keyword(ColorSymbol::Blue255), 0);
    lemma_no_match(s, j, keyword(ColorSymbol::HSLHue360), keyword(ColorSymbol::Red), 0);
    lemma_no_match(s, j, keyword(ColorSymbol::HSLHue360), keyword(ColorSymbol::Green), 0);
    lemma_no_match(s, j, keyword(ColorSymbol::HSLHue360), keyword(ColorSymbol::Blue), 0);
    lemma_no_match(s, j, keyword(ColorSymbol::HSLHue360), keyword(ColorSymbol::Cyan100), 0);
    lemma_no_match(s, j, keyword(ColorSymbol::HSLHue360), keyword(ColorSymbol::Magenta100), 0);
    lemma_no_match(s, j, keyword(ColorSymbol::HSLHue360), keyword(ColorSymbol::Yellow100), 0);
    lemma_no_match(s, j, keyword(ColorSymbol::HSLHue360), keyword(ColorSymbol::Key100), 0);
    lemma_no_match(s, j, keyword(ColorSymbol::HSLHue360), keyword(ColorSymbol::Cyan), 0);
    lemma_no_match(s, j, keyword(ColorSymbol::HSLHue360), keyword(ColorSymbol::Magenta), 0);
    lemma_no_match(s, j, keyword(ColorSymbol::HSLHue360), keyword(ColorSymbol::Yellow), 0);
    lemma_no_match(s, j, keyword(ColorSymbol::HSLHue360), keyword(ColorSymbol::Key), 0);
    lemma_first_match(s, j, 0, 14);
}

proof fn lemma_found_hslsaturation100(s: Seq<char>, j: int)
    requires
        starts_with_at(s, j, keyword(ColorSymbol::HSLSaturation100)),
        j + keyword(ColorSymbol::HSLSaturation100).len() < s.len(),
        ends_name(s[j + keyword(ColorSymbol::HSLSaturation100).len()]),
    ensures
        symbol_at(s, j) == Some(ColorSymbol::HSLSaturation100),
{
    lemma_no_match(s, j, keyword(ColorSymbol::HSLSaturation100), keyword(ColorSymbol::Red255), 0);
    lemma_no_match(s, j, keyword(ColorSymbol::HSLSaturation100), keyword(ColorSymbol::Green255), 0);
    lemma_no_match(s, j, keyword(ColorSymbol::HSLSaturation100), keyword(ColorSymbol::Blue255), 0);
    lemma_no_match(s, j, keyword(ColorSymbol::HSLSaturation100), keyword(ColorSymbol::Red), 0);
    lemma_no_match(s, j, keyword(ColorSymbol::HSLSaturation100), keyword(ColorSymbol::Green), 0);
    lemma_no_match(s, j, keyword(ColorSymbol::HSLSaturation100), keyword(ColorSymbol::Blue), 0);
    lemma_no_match(s, j, keyword(ColorSymbol::HSLSaturation100), keyword(ColorSymbol::Cyan100), 0);
    lemma_no_match(s, j, keyword(ColorSymbol::HSLSaturation100), keyword(ColorSymbol::Magenta100), 0);
    lemma_no_match(s, j, keyword(ColorSymbol::HSLSaturation100), keyword(ColorSymbol::Yellow100), 0);
    lemma_no_match(s, j, keyword(ColorSymbol::HSLSaturation100), keyword(ColorSymbol::Key100), 0);
    lemma_no_match(s, j, keyword(ColorSymbol::HSLSaturation100), keyword(ColorSymbol::Cyan), 0);
    lemma_no_match(s, j, keyword(ColorSymbol::HSLSaturation100), keyword(ColorSymbol::Magenta), 0);
    lemma_no_match(s, j, keyword(ColorSymbol::HSLSaturation100), keyword(ColorSymbol::Yellow), 0);
    lemma_no_match(s, j, keyword(ColorSymbol::HSLSaturation100), keyword(ColorSymbol::Key), 0);
    lemma_no_match(s, j, keyword(ColorSymbol::HSLSaturation100), keyword(ColorSymbol::HSLHue360), 4);
    lemma_first_match(s, j, 0, 15);
}

proof fn lemma_found_hsllight100(s: Seq<char>, j: int)
    requires
        starts_with_at(s, j, keyword(ColorSymbol::HSLLight100)),
        j + keyword(ColorSymbol::HSLLight100).len() < s.len(),
        ends_name(s[j + keyword(ColorSymbol::HSLLight100).len()]),
    ensures
        symbol_at(s, j) == Some(ColorSymbol::HSLLight100),
{
    lemma_no_match(s, j, keyword(ColorSymbol::HSLLight100), keyword(ColorSymbol::Red255), 0);
    lemma_no_match(s, j, keyword(ColorSymbol::HSLLight100), keyword(ColorSymbol::Green255), 0);
    lemma_no_match(s, j, keyword(ColorSymbol::HSLLight100), keyword(ColorSymbol::Blue255), 0);
    lemma_no_match(s, j, keyword(ColorSymbol::HSLLight100), keyword(ColorSymbol::Red), 0);
    lemma_no_match(s, j, keyword(ColorSymbol::HSLLight100), keyword(ColorSymbol::Green), 0);
    lemma_no_match(s, j, keyword(ColorSymbol::HSLLight100), keyword(ColorSymbol::Blue), 0);
    lemma_no_match(s, j, keyword(ColorSymbol::HSLLight100), keyword(ColorSymbol::Cyan100), 0);
    lemma_no_match(s, j, keyword(ColorSymbol::HSLLight100), keyword(ColorSymbol::Magenta100), 0);
    lemma_no_match(s, j, keyword(ColorSymbol::HSLLight100), keyword(ColorSymbol::Yellow100), 0);
    lemma_no_match(s, j, keyword(ColorSymbol::HSLLight100), keyword(ColorSymbol::Key100), 0);
    lemma_no_match(s, j, keyword(ColorSymbol::HSLLight100), keyword(ColorSymbol::Cyan), 0);
    lemma_no_match(s, j, keyword(ColorSymbol::HSLLight100), keyword(ColorSymbol::Magenta), 0);
    lemma_no_match(s, j, keyword(ColorSymbol::HSLLight100), keyword(ColorSymbol::Yellow), 0);
    lemma_no_match(s, j, keyword(ColorSymbol::HSLLight100), keyword(ColorSymbol::Key), 0);
    lemma_no_match(s, j, keyword(ColorSymbol::HSLLight100), keyword(ColorSymbol::HSLHue360), 4);
    lemma_no_match(s, j, keyword(ColorSymbol::HSLLight100), keyword(ColorSymbol::HSLSaturation100), 4);
    lemma_first_match(s, j, 0, 16);
}

proof fn lemma_found_hslhue(s: Seq<char>, j: int)
    requires
        starts_with_at(s, j, keyword(ColorSymbol::HSLHue)),
        j + keyword(ColorSymbol::HSLHue).len() < s.len(),
        ends_name(s[j + keyword(ColorSymbol::HSLHue).len()]),
    ensures
        symbol_at(s, j) == Some(ColorSymbol::HSLHue),
{
    lemma_no_match(s, j, keyword(ColorSymbol::HSLHue), keyword(ColorSymbol::Red255), 0);
    lemma_no_match(s, j, keyword(ColorSymbol::HSLHue), keyword(ColorSymbol::Green255), 0);
    lemma_no_match(s, j, keyword(ColorSymbol::HSLHue), keyword(ColorSymbol::Blue255), 0);
    lemma_no_match(s, j, keyword(ColorSymbol::HSLHue), keyword(ColorSymbol::Red), 0);
    lemma_no_match(s, j, keyword(ColorSymbol::HSLHue), keyword(ColorSymbol::Green), 0);
    lemma_no_match(s, j, keyword(ColorSymbol::HSLHue), keyword(ColorSymbol::Blue), 0);
    lemma_no_match(s, j, keyword(ColorSymbol::HSLHue), keyword(ColorSymbol::Cyan100), 0);
    lemma_no_match(s, j, keyword(ColorSymbol::HSLHue), keyword(ColorSymbol::Magenta100), 0);
    lemma_no_match(s, j, keyword(ColorSymbol::HSLHue), keyword(ColorSymbol::Yellow100), 0);
    lemma_no_match(s, j, keyword(ColorSymbol::HSLHue), keyword(ColorSymbol::Key100), 0);
    lemma_no_match(s, j, keyword(ColorSymbol::HSLHue), keyword(ColorSymbol::Cyan), 0);
    lemma_no_match(s, j, keyword(ColorSymbol::HSLHue), keyword(ColorSymbol::Magenta), 0);
    lemma_no_match(s, j, keyword(ColorSymbol::HSLHue), keyword(ColorSymbol::Yellow), 0);
    lemma_no_match(s, j, keyword(ColorSymbol::HSLHue), keyword(ColorSymbol::Key), 0);
    lemma_no_match(s, j, keyword(ColorSymbol::HSLHue), keyword(ColorSymbol::HSLHue360), 5);
    lemma_no_match(s, j, keyword(ColorSymbol::HSLHue), keyword(ColorSymbol::HSLSaturation100), 4);
    lemma_no_match(s, j, keyword(ColorSymbol::HSLHue), keyword(ColorSymbol::HSLLight100), 4);
    lemma_first_match(s, j, 0, 17);
}

proof fn lemma_found_hslsaturation(s: Seq<char>, j: int)
    requires
        starts_with_at(s, j, keyword(ColorSymbol::HSLSaturation)),
        j + keyword(ColorSymbol::HSLSaturation).len() < s.len(),
        ends_name(s[j + keyword(ColorSymbol::HSLSaturation).len()]),
    ensures
        symbol_at(s, j) == Some(ColorSymbol::HSLSaturation),
{
    lemma_no_match(s, j, keyword(ColorSymbol::HSLSaturation), keyword(ColorSymbol::Red255), 0);
    lemma_no_match(s, j, keyword(ColorSymbol::HSLSaturation), keyword(ColorSymbol::Green255), 0);
    lemma_no_match(s, j, keyword(ColorSymbol::HSLSaturation), keyword(ColorSymbol::Blue255), 0);
    lemma_no_match(s, j, keyword(ColorSymbol::HSLSaturation), keyword(ColorSymbol::Red), 0);
    lemma_no_match(s, j, keyword(ColorSymbol::HSLSaturation), keyword(ColorSymbol::Green), 0);
    lemma_no_match(s, j, keyword(ColorSymbol::HSLSaturation), keyword(ColorSymbol::Blue), 0);
    lemma_no_match(s, j, keyword(ColorSymbol::HSLSaturation), keyword(ColorSymbol::Cyan100), 0);
    lemma_no_match(s, j, keyword(ColorSymbol::HSLSaturation), keyword(ColorSymbol::Magenta100), 0);
    lemma_no_match(s, j, keyword(ColorSymbol::HSLSaturation), keyword(ColorSymbol::Yellow100), 0);
    lemma_no_match(s, j, keyword(ColorSymbol::HSLSaturation), keyword(ColorSymbol::Key100), 0);
    lemma_no_match(s, j, keyword(ColorSymbol::HSLSaturation), keyword(ColorSymbol::Cyan), 0);
    lemma_no_match(s, j, keyword(ColorSymbol::HSLSaturation), keyword(ColorSymbol::Magenta), 0);
    lemma_no_match(s, j, keyword(ColorSymbol::HSLSaturation), keyword(ColorSymbol::Yellow), 0);
    lemma_no_match(s, j, keyword(ColorSymbol::HSLSaturation), keyword(ColorSymbol::Key), 0);
    lemma_no_match(s, j, keyword(ColorSymbol::HSLSaturation), keyword(ColorSymbol::HSLHue360), 4);
    lemma_no_match(s, j, keyword(ColorSymbol::HSLSaturation), keyword(ColorSymbol::HSLSaturation100), 5);
    lemma_no_match(s, j, keyword(ColorSymbol::HSLSaturation), keyword(ColorSymbol::HSLLight100), 4);
    lemma_no_match(s, j, keyword(ColorSymbol::HSLSaturation), keyword(ColorSymbol::HSLHue), 4);
    lemma_first_match(s, j, 0, 18);
}

proof fn lemma_found_hsllight(s: Seq<char>, j: int)
    requires
        starts_with_at(s, j, keyword(ColorSymbol::HSLLight)),
        j + keyword(ColorSymbol::HSLLight).len() < s.len(),
        ends_name(s[j + keyword(ColorSymbol::HSLLight).len()]),
    ensures
        symbol_at(s, j) == Some(ColorSymbol::HSLLight),
{
    lemma_no_match(s, j, keyword(ColorSymbol::HSLLight), keyword(ColorSymbol::Red255), 0);
    lemma_no_match(s, j, keyword(ColorSymbol::HSLLight), keyword(ColorSymbol::Green255), 0);
    lemma_no_match(s, j, keyword(ColorSymbol::HSLLight), keyword(ColorSymbol::Blue255), 0);
    lemma_no_match(s, j, keyword(ColorSymbol::HSLLight), keyword(ColorSymbol::Red), 0);
    lemma_no_match(s, j, keyword(ColorSymbol::HSLLight), keyword(ColorSymbol::Green), 0);
    lemma_no_match(s, j, keyword(ColorSymbol::HSLLight), keyword(ColorSymbol::Blue), 0);
    lemma_no_match(s, j, keyword(ColorSymbol::HSLLight), keyword(ColorSymbol::Cyan100), 0);
    lemma_no_match(s, j, keyword(ColorSymbol::HSLLight), keyword(ColorSymbol::Magenta100), 0);
    lemma_no_match(s, j, keyword(ColorSymbol::HSLLight), keyword(ColorSymbol::Yellow100), 0);
    lemma_no_match(s, j, keyword(ColorSymbol::HSLLight), keyword(ColorSymbol::Key100), 0);
    lemma_no_match(s, j, keyword(ColorSymbol::HSLLight), keyword(ColorSymbol::Cyan), 0);
    lemma_no_match(s, j, keyword(ColorSymbol::HSLLight), keyword(ColorSymbol::Magenta), 0);
    lemma_no_match(s, j, keyword(ColorSymbol::HSLLight), keyword(ColorSymbol::Yellow), 0);
    lemma_no_match(s, j, keyword(ColorSymbol::HSLLight), keyword(ColorSymbol::Key), 0);
    lemma_no_match(s, j, keyword(ColorSymbol::HSLLight), keyword(ColorSymbol::HSLHue360), 4);
    lemma_no_match(s, j, keyword(ColorSymbol::HSLLight), keyword(ColorSymbol::HSLSaturation100), 4);
    lemma_no_match(s, j, keyword(ColorSymbol::HSLLight), keyword(ColorSymbol::HSLLight100), 5);
    lemma_no_match(s, j, keyword(ColorSymbol::HSLLight), keyword(ColorSymbol::HSLHue), 4);
    lemma_no_match(s, j, keyword(ColorSymbol::HSLLight), keyword(ColorSymbol::HSLSaturation), 4);
    lemma_first_match(s, j, 0, 19);
}

proof fn lemma_found_hsvhue360(s: Seq<char>, j: int)
    requires
        starts_with_at(s, j, keyword(ColorSymbol::HSVHue360)),
        j + keyword(ColorSymbol::HSVHue360).len() < s.len(),
        ends_name(s[j + keyword(ColorSymbol::HSVHue360).len()]),
    ensures
        symbol_at(s, j) == Some(ColorSymbol::HSVHue360),
{
    lemma_no_match(s, j, keyword(ColorSymbol::HSVHue360), keyword(ColorSymbol::Red255), 0);
    lemma_no_match(s, j, keyword(ColorSymbol::HSVHue360), keyword(ColorSymbol::Green255), 0);
    lemma_no_match(s, j, keyword(ColorSymbol::HSVHue360), keyword(ColorSymbol::Blue255), 0);
    lemma_no_match(s, j, keyword(ColorSymbol::HSVHue360), keyword(ColorSymbol::Red), 0);
    lemma_no_match(s, j, keyword(ColorSymbol::HSVHue360), keyword(ColorSymbol::Green), 0);
    lemma_no_match(s, j, keyword(ColorSymbol::HSVHue360), keyword(ColorSymbol::Blue), 0);
    lemma_no_match(s, j, keyword(ColorSymbol::HSVHue360), keyword(ColorSymbol::Cyan100), 0);
    lemma_no_match(s, j, keyword(ColorSymbol::HSVHue360), keyword(ColorSymbol::Magenta100), 0);
    lemma_no_match(s, j, keyword(ColorSymbol::HSVHue360), keyword(ColorSymbol::Yellow100), 0);
    lemma_no_match(s, j, keyword(ColorSymbol::HSVHue360), keyword(ColorSymbol::Key100), 0);
    lemma_no_match(s, j, keyword(ColorSymbol::HSVHue360), keyword(ColorSymbol::Cyan), 0);
    lemma_no_match(s, j, keyword(ColorSymbol::HSVHue360), keyword(ColorSymbol::Magenta), 0);
    lemma_no_match(s, j, keyword(ColorSymbol::HSVHue360), keyword(ColorSymbol::Yellow), 0);
    lemma_no_match(s, j, keyword(ColorSymbol::HSVHue360), keyword(ColorSymbol::Key), 0);
    lemma_no_match(s, j, keyword(ColorSymbol::HSVHue360), keyword(ColorSymbol::HSLHue360), 2);
    lemma_no_match(s, j, keyword(ColorSymbol::HSVHue360), keyword(ColorSymbol::HSLSaturation100), 2);
    lemma_no_match(s, j, keyword(ColorSymbol::HSVHue360), keyword(ColorSymbol::HSLLight100), 2);
    lemma_no_match(s, j, keyword(ColorSymbol::HSVHue360), keyword(ColorSymbol::HSLHue), 2);
    lemma_no_match(s, j, keyword(ColorSymbol::HSVHue360), keyword(ColorSymbol::HSLSaturation), 2);
    lemma_no_match(s, j, keyword(ColorSymbol::HSVHue360), keyword(ColorSymbol::HSLLight), 2);
    lemma_first_match(s, j, 0, 20);
}

proof fn lemma_found_hsvsaturation100(s: Seq<char>, j: int)
    requires
        starts_with_at(s, j, keyword(ColorSymbol::HSVSaturation100)),
        j + keyword(ColorSymbol::HSVSaturation100).len() < s.len(),
        ends_name(s[j + keyword(ColorSymbol::HSVSaturation100).len()]),
    ensures
        symbol_at(s, j) == Some(ColorSymbol::HSVSaturation100),
{
    lemma_no_match(s, j, keyword(ColorSymbol::HSVSaturation100), keyword(ColorSymbol::Red255), 0);
    lemma_no_match(s, j, keyword(ColorSymbol::HSVSaturation100), keyword(ColorSymbol::Green255), 0);
    lemma_no_match(s, j, keyword(ColorSymbol::HSVSaturation100), keyword(ColorSymbol::Blue255), 0);
    lemma_no_match(s, j, keyword(ColorSymbol::HSVSaturation100), keyword(ColorSymbol::Red), 0);
    lemma_no_match(s, j, keyword(ColorSymbol::HSVSaturation100), keyword(ColorSymbol::Green), 0);
    lemma_no_match(s, j, keyword(ColorSymbol::HSVSaturation100), keyword(ColorSymbol::Blue), 0);
    lemma_no_match(s, j, keyword(ColorSymbol::HSVSaturation100), keyword(ColorSymbol::Cyan100), 0);
    lemma_no_match(s, j, keyword(ColorSymbol::HSVSaturation100), keyword(ColorSymbol::Magenta100), 0);
    lemma_no_match(s, j, keyword(ColorSymbol::HSVSaturation100), keyword(ColorSymbol::Yellow100), 0);
    lemma_no_match(s, j, keyword(ColorSymbol::HSVSaturation100), keyword(ColorSymbol::Key100), 0);
    lemma_no_match(s, j, keyword(ColorSymbol::HSVSaturation100), keyword(ColorSymbol::Cyan), 0);
    lemma_no_match(s, j, keyword(ColorSymbol::HSVSaturation100), keyword(ColorSymbol::Magenta), 0);
    lemma_no_match(s, j, keyword(ColorSymbol::HSVSaturation100), keyword(ColorSymbol::Yellow), 0);
    lemma_no_match(s, j, keyword(ColorSymbol::HSVSaturation100), keyword(ColorSymbol::Key), 0);
    lemma_no_match(s, j, keyword(ColorSymbol::HSVSaturation100), keyword(ColorSymbol::HSLHue360), 2);
    lemma_no_match(s, j, keyword(ColorSymbol::HSVSaturation100), keyword(ColorSymbol::HSLSaturation100), 2);
    lemma_no_match(s, j, keyword(ColorSymbol::HSVSaturation100), keyword(ColorSymbol::HSLLight100), 2);
    lemma_no_match(s, j, keyword(ColorSymbol::HSVSaturation100), keyword(ColorSymbol::HSLHue), 2);
    lemma_no_match(s, j, keyword(ColorSymbol::HSVSaturation100), keyword(ColorSymbol::HSLSaturation), 2);
    lemma_no_match(s, j, keyword(ColorSymbol::HSVSaturation100), keyword(ColorSymbol::HSLLight), 2);
    lemma_no_match(s, j, keyword(ColorSymbol::HSVSaturation100), keyword(ColorSymbol::HSVHue360), 4);
    lemma_first_match(s, j, 0, 21);
}

proof fn lemma_found_hsvvalue100(s: Seq<char>, j: int)
    requires
        starts_with_at(s, j, keyword(ColorSymbol::HSVValue100)),
        j + keyword(ColorSymbol::HSVValue100).len() < s.len(),
        ends_name(s[j + keyword(ColorSymbol::HSVValue100).len()]),
    ensures
        symbol_at(s, j) == Some(ColorSymbol::HSVValue100),
{
    lemma_no_match(s, j, keyword(ColorSymbol::HSVValue100), keyword(ColorSymbol::Red255), 0);
    lemma_no_match(s, j, keyword(ColorSymbol::HSVValue100), keyword(ColorSymbol::Green255), 0);
    lemma_no_match(s, j, keyword(ColorSymbol::HSVValue100), keyword(ColorSymbol::Blue255), 0);
    lemma_no_match(s, j, keyword(ColorSymbol::HSVValue100), keyword(ColorSymbol::Red), 0);
    lemma_no_match(s, j, keyword(ColorSymbol::HSVValue100), keyword(ColorSymbol::Green), 0);
    lemma_no_match(s, j, keyword(ColorSymbol::HSVValue100), keyword(ColorSymbol::Blue), 0);
    lemma_no_match(s, j, keyword(ColorSymbol::HSVValue100), keyword(ColorSymbol::Cyan100), 0);
    lemma_no_match(s, j, keyword(ColorSymbol::HSVValue100), keyword(ColorSymbol::Magenta100), 0);
    lemma_no_match(s, j, keyword(ColorSymbol::HSVValue100), keyword(ColorSymbol::Yellow100), 0);
    lemma_no_match(s, j, keyword(ColorSymbol::HSVValue100), keyword(ColorSymbol::Key100), 0);
    lemma_no_match(s, j, keyword(ColorSymbol::HSVValue100), keyword(ColorSymbol::Cyan), 0);
    lemma_no_match(s, j, keyword(ColorSymbol::HSVValue100), keyword(ColorSymbol::Magenta), 0);
    lemma_no_match(s, j, keyword(ColorSymbol::HSVValue100), keyword(ColorSymbol::Yellow), 0);
    lemma_no_match(s, j, keyword(ColorSymbol::HSVValue100), keyword(ColorSymbol::Key), 0);
    lemma_no_match(s, j, keyword(ColorSymbol::HSVValue100), keyword(ColorSymbol::HSLHue360), 2);
    lemma_no_match(s, j, keyword(ColorSymbol::HSVValue100), keyword(ColorSymbol::HSLSaturation100), 2);
    lemma_no_match(s, j, keyword(ColorSymbol::HSVValue100), keyword(ColorSymbol::HSLLight100), 2);
    lemma_no_match(s, j, keyword(ColorSymbol::HSVValue100), keyword(ColorSymbol::HSLHue), 2);
    lemma_no_match(s, j, keyword(ColorSymbol::HSVValue100), keyword(ColorSymbol::HSLSaturation), 2);
    lemma_no_match(s, j, keyword(ColorSymbol::HSVValue100), keyword(ColorSymbol::HSLLight), 2);
    lemma_no_match(s, j, keyword(ColorSymbol::HSVValue100), keyword(ColorSymbol::HSVHue360), 4);
    lemma_no_match(s, j, keyword(ColorSymbol::HSVValue100), keyword(ColorSymbol::HSVSaturation100), 4);
    lemma_first_match(s, j, 0, 22);
}

proof fn lemma_found_hsvhue(s: Seq<char>, j: int)
    requires
        starts_with_at(s, j, keyword(ColorSymbol::HSVHue)),
        j + keyword(ColorSymbol::HSVHue).len() < s.len(),
        ends_name(s[j + keyword(ColorSymbol::HSVHue).len()]),
    ensures
        symbol_at(s, j) == Some(ColorSymbol::HSVHue),
{
    lemma_no_match(s, j, keyword(ColorSymbol::HSVHue), keyword(ColorSymbol::Red255), 0);
    lemma_no_match(s, j, keyword(ColorSymbol::HSVHue), keyword(ColorSymbol::Green255), 0);
    lemma_no_match(s, j, keyword(ColorSymbol::HSVHue), keyword(ColorSymbol::Blue255), 0);
    lemma_no_match(s, j, keyword(ColorSymbol::HSVHue), keyword(ColorSymbol::Red), 0);
    lemma_no_match(s, j, keyword(ColorSymbol::HSVHue), keyword(ColorSymbol::Green), 0);
    lemma_no_match(s, j, keyword(ColorSymbol::HSVHue), keyword(ColorSymbol::Blue), 0);
    lemma_no_match(s, j, keyword(ColorSymbol::HSVHue), keyword(ColorSymbol::Cyan100), 0);
    lemma_no_match(s, j, keyword(ColorSymbol::HSVHue), keyword(ColorSymbol::Magenta100), 0);
    lemma_no_match(s, j, keyword(ColorSymbol::HSVHue), keyword(ColorSymbol::Yellow100), 0);
    lemma_no_match(s, j, keyword(ColorSymbol::HSVHue), keyword(ColorSymbol::Key100), 0);
    lemma_no_match(s, j, keyword(ColorSymbol::HSVHue), keyword(ColorSymbol::Cyan), 0);
    lemma_no_match(s, j, keyword(ColorSymbol::HSVHue), keyword(ColorSymbol::Magenta), 0);
    lemma_no_match(s, j, keyword(ColorSymbol::HSVHue), keyword(ColorSymbol::Yellow), 0);
    lemma_no_match(s, j, keyword(ColorSymbol::HSVHue), keyword(ColorSymbol::Key), 0);
    lemma_no_match(s, j, keyword(ColorSymbol::HSVHue), keyword(ColorSymbol::HSLHue360), 2);
    lemma_no_match(s, j, keyword(ColorSymbol::HSVHue), keyword(ColorSymbol::HSLSaturation100), 2);
    lemma_no_match(s, j, keyword(ColorSymbol::HSVHue), keyword(ColorSymbol::HSLLight100), 2);
    lemma_no_match(s, j, keyword(ColorSymbol::HSVHue), keyword(ColorSymbol::HSLHue), 2);
    lemma_no_match(s, j, keyword(ColorSymbol::HSVHue), keyword(ColorSymbol::HSLSaturation), 2);
    lemma_no_match(s, j, keyword(ColorSymbol::HSVHue), keyword(ColorSymbol::HSLLight), 2);
    lemma_no_match(s, j, keyword(ColorSymbol::HSVHue), keyword(ColorSymbol::HSVHue360), 5);
    lemma_no_match(s, j, keyword(ColorSymbol::HSVHue), keyword(ColorSymbol::HSVSaturation100), 4);
    lemma_no_match(s, j, keyword(ColorSymbol::HSVHue), keyword(ColorSymbol::HSVValue100), 4);
    lemma_first_match(s, j, 0, 23);
}

proof fn lemma_found_hsvsaturation(s: Seq<char>, j: int)
    requires
        starts_with_at(s, j, keyword(ColorSymbol::HSVSaturation)),
        j + keyword(ColorSymbol::HSVSaturation).len() < s.len(),
        ends_name(s[j + keyword(ColorSymbol::HSVSaturation).len()]),
    ensures
        symbol_at(s, j) == Some(ColorSymbol::HSVSaturation),
{
    lemma_no_match(s, j, keyword(ColorSymbol::HSVSaturation), keyword(ColorSymbol::Red255), 0);
    lemma_no_match(s, j, keyword(ColorSymbol::HSVSaturation), keyword(ColorSymbol::Green255), 0);
    lemma_no_match(s, j, keyword(ColorSymbol::HSVSaturation), keyword(ColorSymbol::Blue255), 0);
    lemma_no_match(s, j, keyword(ColorSymbol::HSVSaturation), keyword(ColorSymbol::Red), 0);
    lemma_no_match(s, j, keyword(ColorSymbol::HSVSaturation), keyword(ColorSymbol::Green), 0);
    lemma_no_match(s, j, keyword(ColorSymbol::HSVSaturation), keyword(ColorSymbol::Blue), 0);
    lemma_no_match(s, j, keyword(ColorSymbol::HSVSaturation), keyword(ColorSymbol::Cyan100), 0);
    lemma_no_match(s, j, keyword(ColorSymbol::HSVSaturation), keyword(ColorSymbol::Magenta100), 0);
    lemma_no_match(s, j, keyword(ColorSymbol::HSVSaturation), keyword(ColorSymbol::Yellow100), 0);
    lemma_no_match(s, j, keyword(ColorSymbol::HSVSaturation), keyword(ColorSymbol::Key100), 0);
    lemma_no_match(s, j, keyword(ColorSymbol::HSVSaturation), keyword(ColorSymbol::Cyan), 0);
    lemma_no_match(s, j, keyword(ColorSymbol::HSVSaturation), keyword(ColorSymbol::Magenta), 0);
    lemma_no_match(s, j, keyword(ColorSymbol::HSVSaturation), keyword(ColorSymbol::Yellow), 0);
    lemma_no_match(s, j, keyword(ColorSymbol::HSVSaturation), keyword(ColorSymbol::Key), 0);
    lemma_no_match(s, j, keyword(ColorSymbol::HSVSaturation), keyword(ColorSymbol::HSLHue360), 2);
    lemma_no_match(s, j, keyword(ColorSymbol::HSVSaturation), keyword(ColorSymbol::HSLSaturation100), 2);
    lemma_no_match(s, j, keyword(ColorSymbol::HSVSaturation), keyword(ColorSymbol::HSLLight100), 2);
    lemma_no_match(s, j, keyword(ColorSymbol::HSVSaturation), keyword(ColorSymbol::HSLHue), 2);
    lemma_no_match(s, j, keyword(ColorSymbol::HSVSaturation), keyword(ColorSymbol::HSLSaturation), 2);
    lemma_no_match(s, j, keyword(ColorSymbol::HSVSaturation), keyword(ColorSymbol::HSLLight), 2);
    lemma_no_match(s, j, keyword(ColorSymbol::HSVSaturation), keyword(ColorSymbol::HSVHue360), 4);
    lemma_no_match(s, j, keyword(ColorSymbol::HSVSaturation), keyword(ColorSymbol::HSVSaturation100), 5);
    lemma_no_match(s, j, keyword(ColorSymbol::HSVSaturation), keyword(ColorSymbol::HSVValue100), 4);
    lemma_no_match(s, j, keyword(ColorSymbol::HSVSaturation), keyword(ColorSymbol::HSVHue), 4);
    lemma_first_match(s, j, 0, 24);
}

proof fn lemma_found_hsvvalue(s: Seq<char>, j: int)
    requires
        starts_with_at(s, j, keyword(ColorSymbol::HSVValue)),
        j + keyword(ColorSymbol::HSVValue).len() < s.len(),
        ends_name(s[j + keyword(ColorSymbol::HSVValue).len()]),
    ensures
        symbol_at(s, j) == Some(ColorSymbol::HSVValue),
{
    lemma_no_match(s, j, keyword(ColorSymbol::HSVValue), keyword(ColorSymbol::Red255), 0);
    lemma_no_match(s, j, keyword(ColorSymbol::HSVValue), keyword(ColorSymbol::Green255), 0);
    lemma_no_match(s, j, keyword(ColorSymbol::HSVValue), keyword(ColorSymbol::Blue255), 0);
    lemma_no_match(s, j, keyword(ColorSymbol::HSVValue), keyword(ColorSymbol::Red), 0);
    lemma_no_match(s, j, keyword(ColorSymbol::HSVValue), keyword(ColorSymbol::Green), 0);
    lemma_no_match(s, j, keyword(ColorSymbol::HSVValue), keyword(ColorSymbol::Blue), 0);
    lemma_no_match(s, j, keyword(ColorSymbol::HSVValue), keyword(ColorSymbol::Cyan100), 0);
    lemma_no_match(s, j, keyword(ColorSymbol::HSVValue), keyword(ColorSymbol::Magenta100), 0);
    lemma_no_match(s, j, keyword(ColorSymbol::HSVValue), keyword(ColorSymbol::Yellow100), 0);
    lemma_no_match(s, j, keyword(ColorSymbol::HSVValue), keyword(ColorSymbol::Key100), 0);
    lemma_no_match(s, j, keyword(ColorSymbol::HSVValue), keyword(ColorSymbol::Cyan), 0);
    lemma_no_match(s, j, keyword(ColorSymbol::HSVValue), keyword(ColorSymbol::Magenta), 0);
    lemma_no_match(s, j, keyword(ColorSymbol::HSVValue), keyword(ColorSymbol::Yellow), 0);
    lemma_no_match(s, j, keyword(ColorSymbol::HSVValue), keyword(ColorSymbol::Key), 0);
    lemma_no_match(s, j, keyword(ColorSymbol::HSVValue), keyword(ColorSymbol::HSLHue360), 2);
    lemma_no_match(s, j, keyword(ColorSymbol::HSVValue), keyword(ColorSymbol::HSLSaturation100), 2);
    lemma_no_match(s, j, keyword(ColorSymbol::HSVValue), keyword(ColorSymbol::HSLLight100), 2);
    lemma_no_match(s, j, keyword(ColorSymbol::HSVValue), keyword(ColorSymbol::HSLHue), 2);
    lemma_no_match(s, j, keyword(ColorSymbol::HSVValue), keyword(ColorSymbol::HSLSaturation), 2);
    lemma_no_match(s, j, keyword(ColorSymbol::HSVValue), keyword(ColorSymbol::HSLLight), 2);
    lemma_no_match(s, j, keyword(ColorSymbol::HSVValue), keyword(ColorSymbol::HSVHue360), 4);
    lemma_no_match(s, j, keyword(ColorSymbol::HSVValue), keyword(ColorSymbol::HSVSaturation100), 4);
    lemma_no_match(s, j, keyword(ColorSymbol::HSVValue), keyword(ColorSymbol::HSVValue100), 5);
    lemma_no_match(s, j, keyword(ColorSymbol::HSVValue), keyword(ColorSymbol::HSVHue), 4);
    lemma_no_match(s, j, keyword(ColorSymbol::HSVValue), keyword(ColorSymbol::HSVSaturation), 4);
    lemma_first_match(s, j, 0, 25);
}

proof fn lemma_found_lab_l(s: Seq<char>, j: int)
    requires
        starts_with_at(s, j, keyword(ColorSymbol::LabL)),
        j + keyword(ColorSymbol::LabL).len() < s.len(),
        ends_name(s[j + keyword(ColorSymbol::LabL).len()]),
    ensures
        symbol_at(s, j) == Some(ColorSymbol::LabL),
{
    lemma_no_match(s, j, keyword(ColorSymbol::LabL), keyword(ColorSymbol::Red255), 0);
    lemma_no_match(s, j, keyword(ColorSymbol::LabL), keyword(ColorSymbol::Green255), 0);
    lemma_no_match(s, j, keyword(ColorSymbol::LabL), keyword(ColorSymbol::Blue255), 0);
    lemma_no_match(s, j, keyword(ColorSymbol::LabL), keyword(ColorSymbol::Red), 0);
    lemma_no_match(s, j, keyword(ColorSymbol::LabL), keyword(ColorSymbol::Green), 0);
    lemma_no_match(s, j, keyword(ColorSymbol::LabL), keyword(ColorSymbol::Blue), 0);
    lemma_no_match(s, j, keyword(ColorSymbol::LabL), keyword(ColorSymbol::Cyan100), 0);
    lemma_no_match(s, j, keyword(ColorSymbol::LabL), keyword(ColorSymbol::Magenta100), 0);
    lemma_no_match(s, j, keyword(ColorSymbol::LabL), keyword(ColorSymbol::Yellow100), 0);
    lemma_no_match(s, j, keyword(ColorSymbol::LabL), keyword(ColorSymbol::Key100), 0);
    lemma_no_match(s, j, keyword(ColorSymbol::LabL), keyword(ColorSymbol::Cyan), 0);
    lemma_no_match(s, j, keyword(ColorSymbol::LabL), keyword(ColorSymbol::Magenta), 0);
    lemma_no_match(s, j, keyword(ColorSymbol::LabL), keyword(ColorSymbol::Yellow), 0);
    lemma_no_match(s, j, keyword(ColorSymbol::LabL), keyword(ColorSymbol::Key), 0);
    lemma_no_match(s, j, keyword(ColorSymbol::LabL), keyword(ColorSymbol::HSLHue360), 0);
    lemma_no_match(s, j, keyword(ColorSymbol::LabL), keyword(ColorSymbol::HSLSaturation100), 0);
    lemma_no_match(s, j, keyword(ColorSymbol::LabL), keyword(ColorSymbol::HSLLight100), 0);
    lemma_no_match(s, j, keyword(ColorSymbol::LabL), keyword(ColorSymbol::HSLHue), 0);
    lemma_no_match(s, j, keyword(ColorSymbol::LabL), keyword(ColorSymbol::HSLSaturation), 0);
    lemma_no_match(s, j, keyword(ColorSymbol::LabL), keyword(ColorSymbol::HSLLight), 0);
    lemma_no_match(s, j, keyword(ColorSymbol::LabL), keyword(ColorSymbol::HSVHue360), 0);
    lemma_no_match(s, j, keyword(ColorSymbol::LabL), keyword(ColorSymbol::HSVSaturation100), 0);
    lemma_no_match(s, j, keyword(ColorSymbol::LabL), keyword(ColorSymbol::HSVValue100), 0);
    lemma_no_match(s, j, keyword(ColorSymbol::LabL), keyword(ColorSymbol::HSVHue), 0);
    lemma_no_match(s, j, keyword(ColorSymbol::LabL), keyword(ColorSymbol::HSVSaturation), 0);
    lemma_no_match(s, j, keyword(ColorSymbol::LabL), keyword(ColorSymbol::HSVValue), 0);
    lemma_first_match(s, j, 0, 26);
}

proof fn lemma_found_lab_a(s: Seq<char>, j: int)
    requires
        starts_with_at(s, j, keyword(ColorSymbol::LabA)),
        j + keyword(ColorSymbol::LabA).len() < s.len(),
        ends_name(s[j + keyword(ColorSymbol::LabA).len()]),
    ensures
        symbol_at(s, j) == Some(ColorSymbol::LabA),
{
    lemma_no_match(s, j, keyword(ColorSymbol::LabA), keyword(ColorSymbol::Red255), 0);
    lemma_no_match(s, j, keyword(ColorSymbol::LabA), keyword(ColorSymbol::Green255), 0);
    lemma_no_match(s, j, keyword(ColorSymbol::LabA), keyword(ColorSymbol::Blue255), 0);
    lemma_no_match(s, j, keyword(ColorSymbol::LabA), keyword(ColorSymbol::Red), 0);
    lemma_no_match(s, j, keyword(ColorSymbol::LabA), keyword(ColorSymbol::Green), 0);
    lemma_no_match(s, j, keyword(ColorSymbol::LabA), keyword(ColorSymbol::Blue), 0);
    lemma_no_match(s, j, keyword(ColorSymbol::LabA), keyword(ColorSymbol::Cyan100), 0);
    lemma_no_match(s, j, keyword(ColorSymbol::LabA), keyword(ColorSymbol::Magenta100), 0);
    lemma_no_match(s, j, keyword(ColorSymbol::LabA), keyword(ColorSymbol::Yellow100), 0);
    lemma_no_match(s, j, keyword(ColorSymbol::LabA), keyword(ColorSymbol::Key100), 0);
    lemma_no_match(s, j, keyword(ColorSymbol::LabA), keyword(ColorSymbol::Cyan), 0);
    lemma_no_match(s, j, keyword(ColorSymbol::LabA), keyword(ColorSymbol::Magenta), 0);
    lemma_no_match(s, j, keyword(ColorSymbol::LabA), keyword(ColorSymbol::Yellow), 0);
    lemma_no_match(s, j, keyword(ColorSymbol::LabA), keyword(ColorSymbol::Key), 0);
    lemma_no_match(s, j, keyword(ColorSymbol::LabA), keyword(ColorSymbol::HSLHue360), 0);
    lemma_no_match(s, j, keyword(ColorSymbol::LabA), keyword(ColorSymbol::HSLSaturation100), 0);
    lemma_no_match(s, j, keyword(ColorSymbol::LabA), keyword(ColorSymbol::HSLLight100), 0);
    lemma_no_match(s, j, keyword(ColorSymbol::LabA), keyword(ColorSymbol::HSLHue), 0);
    lemma_no_match(s, j, keyword(ColorSymbol::LabA), keyword(ColorSymbol::HSLSaturation), 0);
    lemma_no_match(s, j, keyword(ColorSymbol::LabA), keyword(ColorSymbol::HSLLight), 0);
    lemma_no_match(s, j, keyword(ColorSymbol::LabA), keyword(ColorSymbol::HSVHue360), 0);
    lemma_no_match(s, j, keyword(ColorSymbol::LabA), keyword(ColorSymbol::HSVSaturation100), 0);
    lemma_no_match(s, j, keyword(ColorSymbol::LabA), keyword(ColorSymbol::HSVValue100), 0);
    lemma_no_match(s, j, keyword(ColorSymbol::LabA), keyword(ColorSymbol::HSVHue), 0);
    lemma_no_match(s, j, keyword(ColorSymbol::LabA), keyword(ColorSymbol::HSVSaturation), 0);
    lemma_no_match(s, j, keyword(ColorSymbol::LabA), keyword(ColorSymbol::HSVValue), 0);
    lemma_no_match(s, j, keyword(ColorSymbol::LabA), keyword(ColorSymbol::LabL), 4);
    lemma_first_match(s, j, 0, 27);
}

proof fn lemma_found_lab_b(s: Seq<char>, j: int)
    requires
        starts_with_at(s, j, keyword(ColorSymbol::LabB)),
        j + keyword(ColorSymbol::LabB).len() < s.len(),
        ends_name(s[j + keyword(ColorSymbol::LabB).len()]),
    ensures
        symbol_at(s, j) == Some(ColorSymbol::LabB),
{
    lemma_no_match(s, j, keyword(ColorSymbol::LabB), keyword(ColorSymbol::Red255), 0);
    lemma_no_match(s, j, keyword(ColorSymbol::LabB), keyword(ColorSymbol::Green255), 0);
    lemma_no_match(s, j, keyword(ColorSymbol::LabB), keyword(ColorSymbol::Blue255), 0);
    lemma_no_match(s, j, keyword(ColorSymbol::LabB), keyword(ColorSymbol::Red), 0);
    lemma_no_match(s, j, keyword(ColorSymbol::LabB), keyword(ColorSymbol::Green), 0);
    lemma_no_match(s, j, keyword(ColorSymbol::LabB), keyword(ColorSymbol::Blue), 0);
    lemma_no_match(s, j, keyword(ColorSymbol::LabB), keyword(ColorSymbol::Cyan100), 0);
    lemma_no_match(s, j, keyword(ColorSymbol::LabB), keyword(ColorSymbol::Magenta100), 0);
    lemma_no_match(s, j, keyword(ColorSymbol::LabB), keyword(ColorSymbol::Yellow100), 0);
    lemma_no_match(s, j, keyword(ColorSymbol::LabB), keyword(ColorSymbol::Key100), 0);
    lemma_no_match(s, j, keyword(ColorSymbol::LabB), keyword(ColorSymbol::Cyan), 0);
    lemma_no_match(s, j, keyword(ColorSymbol::LabB), keyword(ColorSymbol::Magenta), 0);
    lemma_no_match(s, j, keyword(ColorSymbol::LabB), keyword(ColorSymbol::Yellow), 0);
    lemma_no_match(s, j, keyword(ColorSymbol::LabB), keyword(ColorSymbol::Key), 0);
    lemma_no_match(s, j, keyword(ColorSymbol::LabB), keyword(ColorSymbol::HSLHue360), 0);
    lemma_no_match(s, j, keyword(ColorSymbol::LabB), keyword(ColorSymbol::HSLSaturation100), 0);
    lemma_no_match(s, j, keyword(ColorSymbol::LabB), keyword(ColorSymbol::HSLLight100), 0);
    lemma_no_match(s, j, keyword(ColorSymbol::LabB), keyword(ColorSymbol::HSLHue), 0);
    lemma_no_match(s, j, keyword(ColorSymbol::LabB), keyword(ColorSymbol::HSLSaturation), 0);
    lemma_no_match(s, j, keyword(ColorSymbol::LabB), keyword(ColorSymbol::HSLLight), 0);
    lemma_no_match(s, j, keyword(ColorSymbol::LabB), keyword(ColorSymbol::HSVHue360), 0);
    lemma_no_match(s, j, keyword(ColorSymbol::LabB), keyword(ColorSymbol::HSVSaturation100), 0);
    lemma_no_match(s, j, keyword(ColorSymbol::LabB), keyword(ColorSymbol::HSVValue100), 0);
    lemma_no_match(s, j, keyword(ColorSymbol::LabB), keyword(ColorSymbol::HSVHue), 0);
    lemma_no_match(s, j, keyword(ColorSymbol::LabB), keyword(ColorSymbol::HSVSaturation), 0);
    lemma_no_match(s, j, keyword(ColorSymbol::LabB), keyword(ColorSymbol::HSVValue), 0);
    lemma_no_match(s, j, keyword(ColorSymbol::LabB), keyword(ColorSymbol::LabL), 4);
    lemma_no_match(s, j, keyword(ColorSymbol::LabB), keyword(ColorSymbol::LabA), 4);
    lemma_first_match(s, j, 0, 28);
}

proof fn lemma_found_lchab_l(s: Seq<char>, j: int)
    requires
        starts_with_at(s, j, keyword(ColorSymbol::LCHabL)),
        j + keyword(ColorSymbol::LCHabL).len() < s.len(),
        ends_name(s[j + keyword(ColorSymbol::LCHabL).len()]),
    ensures
        symbol_at(s, j) == Some(ColorSymbol::LCHabL),
{
    lemma_no_match(s, j, keyword(ColorSymbol::LCHabL), keyword(ColorSymbol::Red255), 0);
    lemma_no_match(s, j, keyword(ColorSymbol::LCHabL), keyword(ColorSymbol::Green255), 0);
    lemma_no_match(s, j, keyword(ColorSymbol::LCHabL), keyword(ColorSymbol::Blue255), 0);
    lemma_no_match(s, j, keyword(ColorSymbol::LCHabL), keyword(ColorSymbol::Red), 0);
    lemma_no_match(s, j, keyword(ColorSymbol::LCHabL), keyword(ColorSymbol::Green), 0);
    lemma_no_match(s, j, keyword(ColorSymbol::LCHabL), keyword(ColorSymbol::Blue), 0);
    lemma_no_match(s, j, keyword(ColorSymbol::LCHabL), keyword(ColorSymbol::Cyan100), 0);
    lemma_no_match(s, j, keyword(ColorSymbol::LCHabL), keyword(ColorSymbol::Magenta100), 0);
    lemma_no_match(s, j, keyword(ColorSymbol::LCHabL), keyword(ColorSymbol::Yellow100), 0);
    lemma_no_match(s, j, keyword(ColorSymbol::LCHabL), keyword(ColorSymbol::Key100), 0);
    lemma_no_match(s, j, keyword(ColorSymbol::LCHabL), keyword(ColorSymbol::Cyan), 0);
    lemma_no_match(s, j, keyword(ColorSymbol::LCHabL), keyword(ColorSymbol::Magenta), 0);
    lemma_no_match(s, j, keyword(ColorSymbol::LCHabL), keyword(ColorSymbol::Yellow), 0);
    lemma_no_match(s, j, keyword(ColorSymbol::LCHabL), keyword(ColorSymbol::Key), 0);
    lemma_no_match(s, j, keyword(ColorSymbol::LCHabL), keyword(ColorSymbol::HSLHue360), 0);
    lemma_no_match(s, j, keyword(ColorSymbol::LCHabL), keyword(ColorSymbol::HSLSaturation100), 0);
    lemma_no_match(s, j, keyword(ColorSymbol::LCHabL), keyword(ColorSymbol::HSLLight100), 0);
    lemma_no_match(s, j, keyword(ColorSymbol::LCHabL), keyword(ColorSymbol::HSLHue), 0);
    lemma_no_match(s, j, keyword(ColorSymbol::LCHabL), keyword(ColorSymbol::HSLSaturation), 0);
    lemma_no_match(s, j, keyword(ColorSymbol::LCHabL), keyword(ColorSymbol::HSLLight), 0);
    lemma_no_match(s, j, keyword(ColorSymbol::LCHabL), keyword(ColorSymbol::HSVHue360), 0);
    lemma_no_match(s, j, keyword(ColorSymbol::LCHabL), keyword(ColorSymbol::HSVSaturation100), 0);
    lemma_no_match(s, j, keyword(ColorSymbol::LCHabL), keyword(ColorSymbol::HSVValue100), 0);
    lemma_no_match(s, j, keyword(ColorSymbol::LCHabL), keyword(ColorSymbol::HSVHue), 0);
    lemma_no_match(s, j, keyword(ColorSymbol::LCHabL), keyword(ColorSymbol::HSVSaturation), 0);
    lemma_no_match(s, j, keyword(ColorSymbol::LCHabL), keyword(ColorSymbol::HSVValue), 0);
    lemma_no_match(s, j, keyword(ColorSymbol::LCHabL), keyword(ColorSymbol::LabL), 1);
    lemma_no_match(s, j, keyword(ColorSymbol::LCHabL), keyword(ColorSymbol::LabA), 1);
    lemma_no_match(s, j, keyword(ColorSymbol::LCHabL), keyword(ColorSymbol::LabB), 1);
    lemma_first_match(s, j, 0, 29);
}

proof fn lemma_found_lchab_c(s: Seq<char>, j: int)
    requires
        starts_with_at(s, j, keyword(ColorSymbol::LCHabC)),
        j + keyword(ColorSymbol::LCHabC).len() < s.len(),
        ends_name(s[j + keyword(ColorSymbol::LCHabC).len()]),
    ensures
        symbol_at(s, j) == Some(ColorSymbol::LCHabC),
{
    lemma_no_match(s, j, keyword(ColorSymbol::LCHabC), keyword(ColorSymbol::Red255), 0);
    lemma_no_match(s, j, keyword(ColorSymbol::LCHabC), keyword(ColorSymbol::Green255), 0);
    lemma_no_match(s, j, keyword(ColorSymbol::LCHabC), keyword(ColorSymbol::Blue255), 0);
    lemma_no_match(s, j, keyword(ColorSymbol::LCHabC), keyword(ColorSymbol::Red), 0);
    lemma_no_match(s, j, keyword(ColorSymbol::LCHabC), keyword(ColorSymbol::Green), 0);
    lemma_no_match(s, j, keyword(ColorSymbol::LCHabC), keyword(ColorSymbol::Blue), 0);
    lemma_no_match(s, j, keyword(ColorSymbol::LCHabC), keyword(ColorSymbol::Cyan100), 0);
    lemma_no_match(s, j, keyword(ColorSymbol::LCHabC), keyword(ColorSymbol::Magenta100), 0);
    lemma_no_match(s, j, keyword(ColorSymbol::LCHabC), keyword(ColorSymbol::Yellow100), 0);
    lemma_no_match(s, j, keyword(ColorSymbol::LCHabC), keyword(ColorSymbol::Key100), 0);
    lemma_no_match(s, j, keyword(ColorSymbol::LCHabC), keyword(ColorSymbol::Cyan), 0);
    lemma_no_match(s, j, keyword(ColorSymbol::LCHabC), keyword(ColorSymbol::Magenta), 0);
    lemma_no_match(s, j, keyword(ColorSymbol::LCHabC), keyword(ColorSymbol::Yellow), 0);
    lemma_no_match(s, j, keyword(ColorSymbol::LCHabC), keyword(ColorSymbol::Key), 0);
    lemma_no_match(s, j, keyword(ColorSymbol::LCHabC), keyword(ColorSymbol::HSLHue360), 0);
    lemma_no_match(s, j, keyword(ColorSymbol::LCHabC), keyword(ColorSymbol::HSLSaturation100), 0);
    lemma_no_match(s, j, keyword(ColorSymbol::LCHabC), keyword(ColorSymbol::HSLLight100), 0);
    lemma_no_match(s, j, keyword(ColorSymbol::LCHabC), keyword(ColorSymbol::HSLHue), 0);
    lemma_no_match(s, j, keyword(ColorSymbol::LCHabC), keyword(ColorSymbol::HSLSaturation), 0);
    lemma_no_match(s, j, keyword(ColorSymbol::LCHabC), keyword(ColorSymbol::HSLLight), 0);
    lemma_no_match(s, j, keyword(ColorSymbol::LCHabC), keyword(ColorSymbol::HSVHue360), 0);
    lemma_no_match(s, j, keyword(ColorSymbol::LCHabC), keyword(ColorSymbol::HSVSaturation100), 0);
    lemma_no_match(s, j, keyword(ColorSymbol::LCHabC), keyword(ColorSymbol::HSVValue100), 0);
    lemma_no_match(s, j, keyword(ColorSymbol::LCHabC), keyword(ColorSymbol::HSVHue), 0);
    lemma_no_match(s, j, keyword(ColorSymbol::LCHabC), keyword(ColorSymbol::HSVSaturation), 0);
    lemma_no_match(s, j, keyword(ColorSymbol::LCHabC), keyword(ColorSymbol::HSVValue), 0);
    lemma_no_match(s, j, keyword(ColorSymbol::LCHabC), keyword(ColorSymbol::LabL), 1);
    lemma_no_match(s, j, keyword(ColorSymbol::LCHabC), keyword(ColorSymbol::LabA), 1);
    lemma_no_match(s, j, keyword(ColorSymbol::LCHabC), keyword(ColorSymbol::LabB), 1);
    lemma_no_match(s, j, keyword(ColorSymbol::LCHabC), keyword(ColorSymbol::LCHabL), 7);
    lemma_first_match(s, j, 0, 30);
}

proof fn lemma_found_lchab_h(s: Seq<char>, j: int)
    requires
        starts_with_at(s, j, keyword(ColorSymbol::LCHabH)),
        j + keyword(ColorSymbol::LCHabH).len() < s.len(),
        ends_name(s[j + keyword(ColorSymbol::LCHabH).len()]),
    ensures
        symbol_at(s, j) == Some(ColorSymbol::LCHabH),
{
    lemma_no_match(s, j, keyword(ColorSymbol::LCHabH), keyword(ColorSymbol::Red255), 0);
    lemma_no_match(s, j, keyword(ColorSymbol::LCHabH), keyword(ColorSymbol::Green255), 0);
    lemma_no_match(s, j, keyword(ColorSymbol::LCHabH), keyword(ColorSymbol::Blue255), 0);
    lemma_no_match(s, j, keyword(ColorSymbol::LCHabH), keyword(ColorSymbol::Red), 0);
    lemma_no_match(s, j, keyword(ColorSymbol::LCHabH), keyword(ColorSymbol::Green), 0);
    lemma_no_match(s, j, keyword(ColorSymbol::LCHabH), keyword(ColorSymbol::Blue), 0);
    lemma_no_match(s, j, keyword(ColorSymbol::LCHabH), keyword(ColorSymbol::Cyan100), 0);
    lemma_no_match(s, j, keyword(ColorSymbol::LCHabH), keyword(ColorSymbol::Magenta100), 0);
    lemma_no_match(s, j, keyword(ColorSymbol::LCHabH), keyword(ColorSymbol::Yellow100), 0);
    lemma_no_match(s, j, keyword(ColorSymbol::LCHabH), keyword(ColorSymbol::Key100), 0);
    lemma_no_match(s, j, keyword(ColorSymbol::LCHabH), keyword(ColorSymbol::Cyan), 0);
    lemma_no_match(s, j, keyword(ColorSymbol::LCHabH), keyword(ColorSymbol::Magenta), 0);
    lemma_no_match(s, j, keyword(ColorSymbol::LCHabH), keyword(ColorSymbol::Yellow), 0);
    lemma_no_match(s, j, keyword(ColorSymbol::LCHabH), keyword(ColorSymbol::Key), 0);
    lemma_no_match(s, j, keyword(ColorSymbol::LCHabH), keyword(ColorSymbol::HSLHue360), 0);
    lemma_no_match(s, j, keyword(ColorSymbol::LCHabH), keyword(ColorSymbol::HSLSaturation100), 0);
    lemma_no_match(s, j, keyword(ColorSymbol::LCHabH), keyword(ColorSymbol::HSLLight100), 0);
    lemma_no_match(s, j, keyword(ColorSymbol::LCHabH), keyword(ColorSymbol::HSLHue), 0);
    lemma_no_match(s, j, keyword(ColorSymbol::LCHabH), keyword(ColorSymbol::HSLSaturation), 0);
    lemma_no_match(s, j, keyword(ColorSymbol::LCHabH), keyword(ColorSymbol::HSLLight), 0);
    lemma_no_match(s, j, keyword(ColorSymbol::LCHabH), keyword(ColorSymbol::HSVHue360), 0);
    lemma_no_match(s, j, keyword(ColorSymbol::LCHabH), keyword(ColorSymbol::HSVSaturation100), 0);
    lemma_no_match(s, j, keyword(ColorSymbol::LCHabH), keyword(ColorSymbol::HSVValue100), 0);
    lemma_no_match(s, j, keyword(ColorSymbol::LCHabH), keyword(ColorSymbol::HSVHue), 0);
    lemma_no_match(s, j, keyword(ColorSymbol::LCHabH), keyword(ColorSymbol::HSVSaturation), 0);
    lemma_no_match(s, j, keyword(ColorSymbol::LCHabH), keyword(ColorSymbol::HSVValue), 0);
    lemma_no_match(s, j, keyword(ColorSymbol::LCHabH), keyword(ColorSymbol::LabL), 1);
    lemma_no_match(s, j, keyword(ColorSymbol::LCHabH), keyword(ColorSymbol::LabA), 1);
    lemma_no_match(s, j, keyword(ColorSymbol::LCHabH), keyword(ColorSymbol::LabB), 1);
    lemma_no_match(s, j, keyword(ColorSymbol::LCHabH), keyword(ColorSymbol::LCHabL), 7);
    lemma_no_match(s, j, keyword(ColorSymbol::LCHabH), keyword(ColorSymbol::LCHabC), 7);
    lemma_first_match(s, j, 0, 31);
}

proof fn lemma_found_luv_l(s: Seq<char>, j: int)
    requires
        starts_with_at(s, j, keyword(ColorSymbol::LuvL)),
        j + keyword(ColorSymbol::LuvL).len() < s.len(),
        ends_name(s[j + keyword(ColorSymbol::LuvL).len()]),
    ensures
        symbol_at(s, j) == Some(ColorSymbol::LuvL),
{
    lemma_no_match(s, j, keyword(ColorSymbol::LuvL), keyword(ColorSymbol::Red255), 0);
    lemma_no_match(s, j, keyword(ColorSymbol::LuvL), keyword(ColorSymbol::Green255), 0);
    lemma_no_match(s, j, keyword(ColorSymbol::LuvL), keyword(ColorSymbol::Blue255), 0);
    lemma_no_match(s, j, keyword(ColorSymbol::LuvL), keyword(ColorSymbol::Red), 0);
    lemma_no_match(s, j, keyword(ColorSymbol::LuvL), keyword(ColorSymbol::Green), 0);
    lemma_no_match(s, j, keyword(ColorSymbol::LuvL), keyword(ColorSymbol::Blue), 0);
    lemma_no_match(s, j, keyword(ColorSymbol::LuvL), keyword(ColorSymbol::Cyan100), 0);
    lemma_no_match(s, j, keyword(ColorSymbol::LuvL), keyword(ColorSymbol::Magenta100), 0);
    lemma_no_match(s, j, keyword(ColorSymbol::LuvL), keyword(ColorSymbol::Yellow100), 0);
    lemma_no_match(s, j, keyword(ColorSymbol::LuvL), keyword(ColorSymbol::Key100), 0);
    lemma_no_match(s, j, keyword(ColorSymbol::LuvL), keyword(ColorSymbol::Cyan), 0);
    lemma_no_match(s, j, keyword(ColorSymbol::LuvL), keyword(ColorSymbol::Magenta), 0);
    lemma_no_match(s, j, keyword(ColorSymbol::LuvL), keyword(ColorSymbol::Yellow), 0);
    lemma_no_match(s, j, keyword(ColorSymbol::LuvL), keyword(ColorSymbol::Key), 0);
    lemma_no_match(s, j, keyword(ColorSymbol::LuvL), keyword(ColorSymbol::HSLHue360), 0);
    lemma_no_match(s, j, keyword(ColorSymbol::LuvL), keyword(ColorSymbol::HSLSaturation100), 0);
    lemma_no_match(s, j, keyword(ColorSymbol::LuvL), keyword(ColorSymbol::HSLLight100), 0);
    lemma_no_match(s, j, keyword(ColorSymbol::LuvL), keyword(ColorSymbol::HSLHue), 0);
    lemma_no_match(s, j, keyword(ColorSymbol::LuvL), keyword(ColorSymbol::HSLSaturation), 0);
    lemma_no_match(s, j, keyword(ColorSymbol::LuvL), keyword(ColorSymbol::HSLLight), 0);
    lemma_no_match(s, j, keyword(ColorSymbol::LuvL), keyword(ColorSymbol::HSVHue360), 0);
    lemma_no_match(s, j, keyword(ColorSymbol::LuvL), keyword(ColorSymbol::HSVSaturation100), 0);
    lemma_no_match(s, j, keyword(ColorSymbol::LuvL), keyword(ColorSymbol::HSVValue100), 0);
    lemma_no_match(s, j, keyword(ColorSymbol::LuvL), keyword(ColorSymbol::HSVHue), 0);
    lemma_no_match(s, j, keyword(ColorSymbol::LuvL), keyword(ColorSymbol::HSVSaturation), 0);
    lemma_no_match(s, j, keyword(ColorSymbol::LuvL), keyword(ColorSymbol::HSVValue), 0);
    lemma_no_match(s, j, keyword(ColorSymbol::LuvL), keyword(ColorSymbol::LabL), 1);
    lemma_no_match(s, j, keyword(ColorSymbol::LuvL), keyword(ColorSymbol::LabA), 1);
    lemma_no_match(s, j, keyword(ColorSymbol::LuvL), keyword(ColorSymbol::LabB), 1);
    lemma_no_match(s, j, keyword(ColorSymbol::LuvL), keyword(ColorSymbol::LCHabL), 1);
    lemma_no_match(s, j, keyword(ColorSymbol::LuvL), keyword(ColorSymbol::LCHabC), 1);
    lemma_no_match(s, j, keyword(ColorSymbol::LuvL), keyword(ColorSymbol::LCHabH), 1);
    lemma_first_match(s, j, 0, 32);
}

proof fn lemma_found_luv_u(s: Seq<char>, j: int)
    requires
        starts_with_at(s, j, keyword(ColorSymbol::LuvU)),
        j + keyword(ColorSymbol::LuvU).len() < s.len(),
        ends_name(s[j + keyword(ColorSymbol::LuvU).len()]),
    ensures
        symbol_at(s, j) == Some(ColorSymbol::LuvU),
{
    lemma_no_match(s, j, keyword(ColorSymbol::LuvU), keyword(ColorSymbol::Red255), 0);
    lemma_no_match(s, j, keyword(ColorSymbol::LuvU), keyword(ColorSymbol::Green255), 0);
    lemma_no_match(s, j, keyword(ColorSymbol::LuvU), keyword(ColorSymbol::Blue255), 0);
    lemma_no_match(s, j, keyword(ColorSymbol::LuvU), keyword(ColorSymbol::Red), 0);
    lemma_no_match(s, j, keyword(ColorSymbol::LuvU), keyword(ColorSymbol::Green), 0);
    lemma_no_match(s, j, keyword(ColorSymbol::LuvU), keyword(ColorSymbol::Blue), 0);
    lemma_no_match(s, j, keyword(ColorSymbol::LuvU), keyword(ColorSymbol::Cyan100), 0);
    lemma_no_match(s, j, keyword(ColorSymbol::LuvU), keyword(ColorSymbol::Magenta100), 0);
    lemma_no_match(s, j, keyword(ColorSymbol::LuvU), keyword(ColorSymbol::Yellow100), 0);
    lemma_no_match(s, j, keyword(ColorSymbol::LuvU), keyword(ColorSymbol::Key100), 0);
    lemma_no_match(s, j, keyword(ColorSymbol::LuvU), keyword(ColorSymbol::Cyan), 0);
    lemma_no_match(s, j, keyword(ColorSymbol::LuvU), keyword(ColorSymbol::Magenta), 0);
    lemma_no_match(s, j, keyword(ColorSymbol::LuvU), keyword(ColorSymbol::Yellow), 0);
    lemma_no_match(s, j, keyword(ColorSymbol::LuvU), keyword(ColorSymbol::Key), 0);
    lemma_no_match(s, j, keyword(ColorSymbol::LuvU), keyword(ColorSymbol::HSLHue360), 0);
    lemma_no_match(s, j, keyword(ColorSymbol::LuvU), keyword(ColorSymbol::HSLSaturation100), 0);
    lemma_no_match(s, j, keyword(ColorSymbol::LuvU), keyword(ColorSymbol::HSLLight100), 0);
    lemma_no_match(s, j, keyword(ColorSymbol::LuvU), keyword(ColorSymbol::HSLHue), 0);
    lemma_no_match(s, j, keyword(ColorSymbol::LuvU), keyword(ColorSymbol::HSLSaturation), 0);
    lemma_no_match(s, j, keyword(ColorSymbol::LuvU), keyword(ColorSymbol::HSLLight), 0);
    lemma_no_match(s, j, keyword(ColorSymbol::LuvU), keyword(ColorSymbol::HSVHue360), 0);
    lemma_no_match(s, j, keyword(ColorSymbol::LuvU), keyword(ColorSymbol::HSVSaturation100), 0);
    lemma_no_match(s, j, keyword(ColorSymbol::LuvU), keyword(ColorSymbol::HSVValue100), 0);
    lemma_no_match(s, j, keyword(ColorSymbol::LuvU), keyword(ColorSymbol::HSVHue), 0);
    lemma_no_match(s, j, keyword(ColorSymbol::LuvU), keyword(ColorSymbol::HSVSaturation), 0);
    lemma_no_match(s, j, keyword(ColorSymbol::LuvU), keyword(ColorSymbol::HSVValue), 0);
    lemma_no_match(s, j, keyword(ColorSymbol::LuvU), keyword(ColorSymbol::LabL), 1);
    lemma_no_match(s, j, keyword(ColorSymbol::LuvU), keyword(ColorSymbol::LabA), 1);
    lemma_no_match(s, j, keyword(ColorSymbol::LuvU), keyword(ColorSymbol::LabB), 1);
    lemma_no_match(s, j, keyword(ColorSymbol::LuvU), keyword(ColorSymbol::LCHabL), 1);
    lemma_no_match(s, j, keyword(ColorSymbol::LuvU), keyword(ColorSymbol::LCHabC), 1);
    lemma_no_match(s, j, keyword(ColorSymbol::LuvU), keyword(ColorSymbol::LCHabH), 1);
    lemma_no_match(s, j, keyword(ColorSymbol::LuvU), keyword(ColorSymbol::LuvL), 4);
    lemma_first_match(s, j, 0, 33);
}

proof fn lemma_found_luv_v(s: Seq<char>, j: int)
    requires
        starts_with_at(s, j, keyword(ColorSymbol::LuvV)),
        j + keyword(ColorSymbol::LuvV).len() < s.len(),
        ends_name(s[j + keyword(ColorSymbol::LuvV).len()]),
    ensures
        symbol_at(s, j) == Some(ColorSymbol::LuvV),
{
    lemma_no_match(s, j, keyword(ColorSymbol::LuvV), keyword(ColorSymbol::Red255), 0);
    lemma_no_match(s, j, keyword(ColorSymbol::LuvV), keyword(ColorSymbol::Green255), 0);
    lemma_no_match(s, j, keyword(ColorSymbol::LuvV), keyword(ColorSymbol::Blue255), 0);
    lemma_no_match(s, j, keyword(ColorSymbol::LuvV), keyword(ColorSymbol::Red), 0);
    lemma_no_match(s, j, keyword(ColorSymbol::LuvV), keyword(ColorSymbol::Green), 0);
    lemma_no_match(s, j, keyword(ColorSymbol::LuvV), keyword(ColorSymbol::Blue), 0);
    lemma_no_match(s, j, keyword(ColorSymbol::LuvV), keyword(ColorSymbol::Cyan100), 0);
    lemma_no_match(s, j, keyword(ColorSymbol::LuvV), keyword(ColorSymbol::Magenta100), 0);
    lemma_no_match(s, j, keyword(ColorSymbol::LuvV), keyword(ColorSymbol::Yellow100), 0);
    lemma_no_match(s, j, keyword(ColorSymbol::LuvV), keyword(ColorSymbol::Key100), 0);
    lemma_no_match(s, j, keyword(ColorSymbol::LuvV), keyword(ColorSymbol::Cyan), 0);
    lemma_no_match(s, j, keyword(ColorSymbol::LuvV), keyword(ColorSymbol::Magenta), 0);
    lemma_no_match(s, j, keyword(ColorSymbol::LuvV), keyword(ColorSymbol::Yellow), 0);
    lemma_no_match(s, j, keyword(ColorSymbol::LuvV), keyword(ColorSymbol::Key), 0);
    lemma_no_match(s, j, keyword(ColorSymbol::LuvV), keyword(ColorSymbol::HSLHue360), 0);
    lemma_no_match(s, j, keyword(ColorSymbol::LuvV), keyword(ColorSymbol::HSLSaturation100), 0);
    lemma_no_match(s, j, keyword(ColorSymbol::LuvV), keyword(ColorSymbol::HSLLight100), 0);
    lemma_no_match(s, j, keyword(ColorSymbol::LuvV), keyword(ColorSymbol::HSLHue), 0);
    lemma_no_match(s, j, keyword(ColorSymbol::LuvV), keyword(ColorSymbol::HSLSaturation), 0);
    lemma_no_match(s, j, keyword(ColorSymbol::LuvV), keyword(ColorSymbol::HSLLight), 0);
    lemma_no_match(s, j, keyword(ColorSymbol::LuvV), keyword(ColorSymbol::HSVHue360), 0);
    lemma_no_match(s, j, keyword(ColorSymbol::LuvV), keyword(ColorSymbol::HSVSaturation100), 0);
    lemma_no_match(s, j, keyword(ColorSymbol::LuvV), keyword(ColorSymbol::HSVValue100), 0);
    lemma_no_match(s, j, keyword(ColorSymbol::LuvV), keyword(ColorSymbol::HSVHue), 0);
    lemma_no_match(s, j, keyword(ColorSymbol::LuvV), keyword(ColorSymbol::HSVSaturation), 0);
    lemma_no_match(s, j, keyword(ColorSymbol::LuvV), keyword(ColorSymbol::HSVValue), 0);
    lemma_no_match(s, j, keyword(ColorSymbol::LuvV), keyword(ColorSymbol::LabL), 1);
    lemma_no_match(s, j, keyword(ColorSymbol::LuvV), keyword(ColorSymbol::LabA), 1);
    lemma_no_match(s, j, keyword(ColorSymbol::LuvV), keyword(ColorSymbol::LabB), 1);
    lemma_no_match(s, j, keyword(ColorSymbol::LuvV), keyword(ColorSymbol::LCHabL), 1);
    lemma_no_match(s, j, keyword(ColorSymbol::LuvV), keyword(ColorSymbol::LCHabC), 1);
    lemma_no_match(s, j, keyword(ColorSymbol::LuvV), keyword(ColorSymbol::LCHabH), 1);
    lemma_no_match(s, j, keyword(ColorSymbol::LuvV), keyword(ColorSymbol::LuvL), 4);
    lemma_no_match(s, j, keyword(ColorSymbol::LuvV), keyword(ColorSymbol::LuvU), 4);
    lemma_first_match(s, j, 0, 34);
}

proof fn lemma_found_lchuv_l(s: Seq<char>, j: int)
    requires
        starts_with_at(s, j, keyword(ColorSymbol::LCHuvL)),
        j + keyword(ColorSymbol::LCHuvL).len() < s.len(),
        ends_name(s[j + keyword(ColorSymbol::LCHuvL).len()]),
    ensures
        symbol_at(s, j) == Some(ColorSymbol::LCHuvL),
{
    lemma_no_match(s, j, keyword(ColorSymbol::LCHuvL), keyword(ColorSymbol::Red255), 0);
    lemma_no_match(s, j, keyword(ColorSymbol::LCHuvL), keyword(ColorSymbol::Green255), 0);
    lemma_no_match(s, j, keyword(ColorSymbol::LCHuvL), keyword(ColorSymbol::Blue255), 0);
    lemma_no_match(s, j, keyword(ColorSymbol::LCHuvL), keyword(ColorSymbol::Red), 0);
    lemma_no_match(s, j, keyword(ColorSymbol::LCHuvL), keyword(ColorSymbol::Green), 0);
    lemma_no_match(s, j, keyword(ColorSymbol::LCHuvL), keyword(ColorSymbol::Blue), 0);
    lemma_no_match(s, j, keyword(ColorSymbol::LCHuvL), keyword(ColorSymbol::Cyan100), 0);
    lemma_no_match(s, j, keyword(ColorSymbol::LCHuvL), keyword(ColorSymbol::Magenta100), 0);
    lemma_no_match(s, j, keyword(ColorSymbol::LCHuvL), keyword(ColorSymbol::Yellow100), 0);
    lemma_no_match(s, j, keyword(ColorSymbol::LCHuvL), keyword(ColorSymbol::Key100), 0);
    lemma_no_match(s, j, keyword(ColorSymbol::LCHuvL), keyword(ColorSymbol::Cyan), 0);
    lemma_no_match(s, j, keyword(ColorSymbol::LCHuvL), keyword(ColorSymbol::Magenta), 0);
    lemma_no_match(s, j, keyword(ColorSymbol::LCHuvL), keyword(ColorSymbol::Yellow), 0);
    lemma_no_match(s, j, keyword(ColorSymbol::LCHuvL), keyword(ColorSymbol::Key), 0);
    lemma_no_match(s, j, keyword(ColorSymbol::LCHuvL), keyword(ColorSymbol::HSLHue360), 0);
    lemma_no_match(s, j, keyword(ColorSymbol::LCHuvL), keyword(ColorSymbol::HSLSaturation100), 0);
    lemma_no_match(s, j, keyword(ColorSymbol::LCHuvL), keyword(ColorSymbol::HSLLight100), 0);
    lemma_no_match(s, j, keyword(ColorSymbol::LCHuvL), keyword(ColorSymbol::HSLHue), 0);
    lemma_no_match(s, j, keyword(ColorSymbol::LCHuvL), keyword(ColorSymbol::HSLSaturation), 0);
    lemma_no_match(s, j, keyword(ColorSymbol::LCHuvL), keyword(ColorSymbol::HSLLight), 0);
    lemma_no_match(s, j, keyword(ColorSymbol::LCHuvL), keyword(ColorSymbol::HSVHue360), 0);
    lemma_no_match(s, j, keyword(ColorSymbol::LCHuvL), keyword(ColorSymbol::HSVSaturation100), 0);
    lemma_no_match(s, j, keyword(ColorSymbol::LCHuvL), keyword(ColorSymbol::HSVValue100), 0);
    lemma_no_match(s, j, keyword(ColorSymbol::LCHuvL), keyword(ColorSymbol::HSVHue), 0);
    lemma_no_match(s, j, keyword(ColorSymbol::LCHuvL), keyword(ColorSymbol::HSVSaturation), 0);
    lemma_no_match(s, j, keyword(ColorSymbol::LCHuvL), keyword(ColorSymbol::HSVValue), 0);
    lemma_no_match(s, j, keyword(ColorSymbol::LCHuvL), keyword(ColorSymbol::LabL), 1);
    lemma_no_match(s, j, keyword(ColorSymbol::LCHuvL), keyword(ColorSymbol::LabA), 1);
    lemma_no_match(s, j, keyword(ColorSymbol::LCHuvL), keyword(ColorSymbol::LabB), 1);
    lemma_no_match(s, j, keyword(ColorSymbol::LCHuvL), keyword(ColorSymbol::LCHabL), 4);
    lemma_no_match(s, j, keyword(ColorSymbol::LCHuvL), keyword(ColorSymbol::LCHabC), 4);
    lemma_no_match(s, j, keyword(ColorSymbol::LCHuvL), keyword(ColorSymbol::LCHabH), 4);
    lemma_no_match(s, j, keyword(ColorSymbol::LCHuvL), keyword(ColorSymbol::LuvL), 1);
    lemma_no_match(s, j, keyword(ColorSymbol::LCHuvL), keyword(ColorSymbol::LuvU), 1);
    lemma_no_match(s, j, keyword(ColorSymbol::LCHuvL), keyword(ColorSymbol::LuvV), 1);
    lemma_first_match(s, j, 0, 35);
}

proof fn lemma_found_lchuv_c(s: Seq<char>, j: int)
    requires
        starts_with_at(s, j, keyword(ColorSymbol::LCHuvC)),
        j + keyword(ColorSymbol::LCHuvC).len() < s.len(),
        ends_name(s[j + keyword(ColorSymbol::LCHuvC).len()]),
    ensures
        symbol_at(s, j) == Some(ColorSymbol::LCHuvC),
{
    lemma_no_match(s, j, keyword(ColorSymbol::LCHuvC), keyword(ColorSymbol::Red255), 0);
    lemma_no_match(s, j, keyword(ColorSymbol::LCHuvC), keyword(ColorSymbol::Green255), 0);
    lemma_no_match(s, j, keyword(ColorSymbol::LCHuvC), keyword(ColorSymbol::Blue255), 0);
    lemma_no_match(s, j, keyword(ColorSymbol::LCHuvC), keyword(ColorSymbol::Red), 0);
    lemma_no_match(s, j, keyword(ColorSymbol::LCHuvC), keyword(ColorSymbol::Green), 0);
    lemma_no_match(s, j, keyword(ColorSymbol::LCHuvC), keyword(ColorSymbol::Blue), 0);
    lemma_no_match(s, j, keyword(ColorSymbol::LCHuvC), keyword(ColorSymbol::Cyan100), 0);
    lemma_no_match(s, j, keyword(ColorSymbol::LCHuvC), keyword(ColorSymbol::Magenta100), 0);
    lemma_no_match(s, j, keyword(ColorSymbol::LCHuvC), keyword(ColorSymbol::Yellow100), 0);
    lemma_no_match(s, j, keyword(ColorSymbol::LCHuvC), keyword(ColorSymbol::Key100), 0);
    lemma_no_match(s, j, keyword(ColorSymbol::LCHuvC), keyword(ColorSymbol::Cyan), 0);
    lemma_no_match(s, j, keyword(ColorSymbol::LCHuvC), keyword(ColorSymbol::Magenta), 0);
    lemma_no_match(s, j, keyword(ColorSymbol::LCHuvC), keyword(ColorSymbol::Yellow), 0);
    lemma_no_match(s, j, keyword(ColorSymbol::LCHuvC), keyword(ColorSymbol::Key), 0);
    lemma_no_match(s, j, keyword(ColorSymbol::LCHuvC), keyword(ColorSymbol::HSLHue360), 0);
    lemma_no_match(s, j, keyword(ColorSymbol::LCHuvC), keyword(ColorSymbol::HSLSaturation100), 0);
    lemma_no_match(s, j, keyword(ColorSymbol::LCHuvC), keyword(ColorSymbol::HSLLight100), 0);
    lemma_no_match(s, j, keyword(ColorSymbol::LCHuvC), keyword(ColorSymbol::HSLHue), 0);
    lemma_no_match(s, j, keyword(ColorSymbol::LCHuvC), keyword(ColorSymbol::HSLSaturation), 0);
    lemma_no_match(s, j, keyword(ColorSymbol::LCHuvC), keyword(ColorSymbol::HSLLight), 0);
    lemma_no_match(s, j, keyword(ColorSymbol::LCHuvC), keyword(ColorSymbol::HSVHue360), 0);
    lemma_no_match(s, j, keyword(ColorSymbol::LCHuvC), keyword(ColorSymbol::HSVSaturation100), 0);
    lemma_no_match(s, j, keyword(ColorSymbol::LCHuvC), keyword(ColorSymbol::HSVValue100), 0);
    lemma_no_match(s, j, keyword(ColorSymbol::LCHuvC), keyword(ColorSymbol::HSVHue), 0);
    lemma_no_match(s, j, keyword(ColorSymbol::LCHuvC), keyword(ColorSymbol::HSVSaturation), 0);
    lemma_no_match(s, j, keyword(ColorSymbol::LCHuvC), keyword(ColorSymbol::HSVValue), 0);
    lemma_no_match(s, j, keyword(ColorSymbol::LCHuvC), keyword(ColorSymbol::LabL), 1);
    lemma_no_match(s, j, keyword(ColorSymbol::LCHuvC), keyword(ColorSymbol::LabA), 1);
    lemma_no_match(s, j, keyword(ColorSymbol::LCHuvC), keyword(ColorSymbol::LabB), 1);
    lemma_no_match(s, j, keyword(ColorSymbol::LCHuvC), keyword(ColorSymbol::LCHabL), 4);
    lemma_no_match(s, j, keyword(ColorSymbol::LCHuvC), keyword(ColorSymbol::LCHabC), 4);
    lemma_no_match(s, j, keyword(ColorSymbol::LCHuvC), keyword(ColorSymbol::LCHabH), 4);
    lemma_no_match(s, j, keyword(ColorSymbol::LCHuvC), keyword(ColorSymbol::LuvL), 1);
    lemma_no_match(s, j, keyword(ColorSymbol::LCHuvC), keyword(ColorSymbol::LuvU), 1);
    lemma_no_match(s, j, keyword(ColorSymbol::LCHuvC), keyword(ColorSymbol::LuvV), 1);
    lemma_no_match(s, j, keyword(ColorSymbol::LCHuvC), keyword(ColorSymbol::LCHuvL), 7);
    lemma_first_match(s, j, 0, 36);
}

proof fn lemma_found_lchuv_h(s: Seq<char>, j: int)
    requires
        starts_with_at(s, j, keyword(ColorSymbol::LCHuvH)),
        j + keyword(ColorSymbol::LCHuvH).len() < s.len(),
        ends_name(s[j + keyword(ColorSymbol::LCHuvH).len()]),
    ensures
        symbol_at(s, j) == Some(ColorSymbol::LCHuvH),
{
    lemma_no_match(s, j, keyword(ColorSymbol::LCHuvH), keyword(ColorSymbol::Red255), 0);
    lemma_no_match(s, j, keyword(ColorSymbol::LCHuvH), keyword(ColorSymbol::Green255), 0);
    lemma_no_match(s, j, keyword(ColorSymbol::LCHuvH), keyword(ColorSymbol::Blue255), 0);
    lemma_no_match(s, j, keyword(ColorSymbol::LCHuvH), keyword(ColorSymbol::Red), 0);
    lemma_no_match(s, j, keyword(ColorSymbol::LCHuvH), keyword(ColorSymbol::Green), 0);
    lemma_no_match(s, j, keyword(ColorSymbol::LCHuvH), keyword(ColorSymbol::Blue), 0);
    lemma_no_match(s, j, keyword(ColorSymbol::LCHuvH), keyword(ColorSymbol::Cyan100), 0);
    lemma_no_match(s, j, keyword(ColorSymbol::LCHuvH), keyword(ColorSymbol::Magenta100), 0);
    lemma_no_match(s, j, keyword(ColorSymbol::LCHuvH), keyword(ColorSymbol::Yellow100), 0);
    lemma_no_match(s, j, keyword(ColorSymbol::LCHuvH), keyword(ColorSymbol::Key100), 0);
    lemma_no_match(s, j, keyword(ColorSymbol::LCHuvH), keyword(ColorSymbol::Cyan), 0);
    lemma_no_match(s, j, keyword(ColorSymbol::LCHuvH), keyword(ColorSymbol::Magenta), 0);
    lemma_no_match(s, j, keyword(ColorSymbol::LCHuvH), keyword(ColorSymbol::Yellow), 0);
    lemma_no_match(s, j, keyword(ColorSymbol::LCHuvH), keyword(ColorSymbol::Key), 0);
    lemma_no_match(s, j, keyword(ColorSymbol::LCHuvH), keyword(ColorSymbol::HSLHue360), 0);
    lemma_no_match(s, j, keyword(ColorSymbol::LCHuvH), keyword(ColorSymbol::HSLSaturation100), 0);
    lemma_no_match(s, j, keyword(ColorSymbol::LCHuvH), keyword(ColorSymbol::HSLLight100), 0);
    lemma_no_match(s, j, keyword(ColorSymbol::LCHuvH), keyword(ColorSymbol::HSLHue), 0);
    lemma_no_match(s, j, keyword(ColorSymbol::LCHuvH), keyword(ColorSymbol::HSLSaturation), 0);
    lemma_no_match(s, j, keyword(ColorSymbol::LCHuvH), keyword(ColorSymbol::HSLLight), 0);
    lemma_no_match(s, j, keyword(ColorSymbol::LCHuvH), keyword(ColorSymbol::HSVHue360), 0);
    lemma_no_match(s, j, keyword(ColorSymbol::LCHuvH), keyword(ColorSymbol::HSVSaturation100), 0);
    lemma_no_match(s, j, keyword(ColorSymbol::LCHuvH), keyword(ColorSymbol::HSVValue100), 0);
    lemma_no_match(s, j, keyword(ColorSymbol::LCHuvH), keyword(ColorSymbol::HSVHue), 0);
    lemma_no_match(s, j, keyword(ColorSymbol::LCHuvH), keyword(ColorSymbol::HSVSaturation), 0);
    lemma_no_match(s, j, keyword(ColorSymbol::LCHuvH), keyword(ColorSymbol::HSVValue), 0);
    lemma_no_match(s, j, keyword(ColorSymbol::LCHuvH), keyword(ColorSymbol::LabL), 1);
    lemma_no_match(s, j, keyword(ColorSymbol::LCHuvH), keyword(ColorSymbol::LabA), 1);
    lemma_no_match(s, j, keyword(ColorSymbol::LCHuvH), keyword(ColorSymbol::LabB), 1);
    lemma_no_match(s, j, keyword(ColorSymbol::LCHuvH), keyword(ColorSymbol::LCHabL), 4);
    lemma_no_match(s, j, keyword(ColorSymbol::LCHuvH), keyword(ColorSymbol::LCHabC), 4);
    lemma_no_match(s, j, keyword(ColorSymbol::LCHuvH), keyword(ColorSymbol::LCHabH), 4);
    lemma_no_match(s, j, keyword(ColorSymbol::LCHuvH), keyword(ColorSymbol::LuvL), 1);
    lemma_no_match(s, j, keyword(ColorSymbol::LCHuvH), keyword(ColorSymbol::LuvU), 1);
    lemma_no_match(s, j, keyword(ColorSymbol::LCHuvH), keyword(ColorSymbol::LuvV), 1);
    lemma_no_match(s, j, keyword(ColorSymbol::LCHuvH), keyword(ColorSymbol::LCHuvL), 7);
    lemma_no_match(s, j, keyword(ColorSymbol::LCHuvH), keyword(ColorSymbol::LCHuvC), 7);
    lemma_first_match(s, j, 0, 37);
}

proof fn lemma_found_xyy_x(s: Seq<char>, j: int)
    requires
        starts_with_at(s, j, keyword(ColorSymbol::xyYx)),
        j + keyword(ColorSymbol::xyYx).len() < s.len(),
        ends_name(s[j + keyword(ColorSymbol::xyYx).len()]),
    ensures
        symbol_at(s, j) == Some(ColorSymbol::xyYx),
{
    lemma_no_match(s, j, keyword(ColorSymbol::xyYx), keyword(ColorSymbol::Red255), 0);
    lemma_no_match(s, j, keyword(ColorSymbol::xyYx), keyword(ColorSymbol::Green255), 0);
    lemma_no_match(s, j, keyword(ColorSymbol::xyYx), keyword(ColorSymbol::Blue255), 0);
    lemma_no_match(s, j, keyword(ColorSymbol::xyYx), keyword(ColorSymbol::Red), 0);
    lemma_no_match(s, j, keyword(ColorSymbol::xyYx), keyword(ColorSymbol::Green), 0);
    lemma_no_match(s, j, keyword(ColorSymbol::xyYx), keyword(ColorSymbol::Blue), 0);
    lemma_no_match(s, j, keyword(ColorSymbol::xyYx), keyword(ColorSymbol::Cyan100), 0);
    lemma_no_match(s, j, keyword(ColorSymbol::xyYx), keyword(ColorSymbol::Magenta100), 0);
    lemma_no_match(s, j, keyword(ColorSymbol::xyYx), keyword(ColorSymbol::Yellow100), 0);
    lemma_no_match(s, j, keyword(ColorSymbol::xyYx), keyword(ColorSymbol::Key100), 0);
    lemma_no_match(s, j, keyword(ColorSymbol::xyYx), keyword(ColorSymbol::Cyan), 0);
    lemma_no_match(s, j, keyword(ColorSymbol::xyYx), keyword(ColorSymbol::Magenta), 0);
    lemma_no_match(s, j, keyword(ColorSymbol::xyYx), keyword(ColorSymbol::Yellow), 0);
    lemma_no_match(s, j, keyword(ColorSymbol::xyYx), keyword(ColorSymbol::Key), 0);
    lemma_no_match(s, j, keyword(ColorSymbol::xyYx), keyword(ColorSymbol::HSLHue360), 0);
    lemma_no_match(s, j, keyword(ColorSymbol::xyYx), keyword(ColorSymbol::HSLSaturation100), 0);
    lemma_no_match(s, j, keyword(ColorSymbol::xyYx), keyword(ColorSymbol::HSLLight100), 0);
    lemma_no_match(s, j, keyword(ColorSymbol::xyYx), keyword(ColorSymbol::HSLHue), 0);
    lemma_no_match(s, j, keyword(ColorSymbol::xyYx), keyword(ColorSymbol::HSLSaturation), 0);
    lemma_no_match(s, j, keyword(ColorSymbol::xyYx), keyword(ColorSymbol::HSLLight), 0);
    lemma_no_match(s, j, keyword(ColorSymbol::xyYx), keyword(ColorSymbol::HSVHue360), 0);
    lemma_no_match(s, j, keyword(ColorSymbol::xyYx), keyword(ColorSymbol::HSVSaturation100), 0);
    lemma_no_match(s, j, keyword(ColorSymbol::xyYx), keyword(ColorSymbol::HSVValue100), 0);
    lemma_no_match(s, j, keyword(ColorSymbol::xyYx), keyword(ColorSymbol::HSVHue), 0);
    lemma_no_match(s, j, keyword(ColorSymbol::xyYx), keyword(ColorSymbol::HSVSaturation), 0);
    lemma_no_match(s, j, keyword(ColorSymbol::xyYx), keyword(ColorSymbol::HSVValue), 0);
    lemma_no_match(s, j, keyword(ColorSymbol::xyYx), keyword(ColorSymbol::LabL), 0);
    lemma_no_match(s, j, keyword(ColorSymbol::xyYx), keyword(ColorSymbol::LabA), 0);
    lemma_no_match(s, j, keyword(ColorSymbol::xyYx), keyword(ColorSymbol::LabB), 0);
    lemma_no_match(s, j, keyword(ColorSymbol::xyYx), keyword(ColorSymbol::LCHabL), 0);
    lemma_no_match(s, j, keyword(ColorSymbol::xyYx), keyword(ColorSymbol::LCHabC), 0);
    lemma_no_match(s, j, keyword(ColorSymbol::xyYx), keyword(ColorSymbol::LCHabH), 0);
    lemma_no_match(s, j, keyword(ColorSymbol::xyYx), keyword(ColorSymbol::LuvL), 0);
    lemma_no_match(s, j, keyword(ColorSymbol::xyYx), keyword(ColorSymbol::LuvU), 0);
    lemma_no_match(s, j, keyword(ColorSymbol::xyYx), keyword(ColorSymbol::LuvV), 0);
    lemma_no_match(s, j, keyword(ColorSymbol::xyYx), keyword(ColorSymbol::LCHuvL), 0);
    lemma_no_match(s, j, keyword(ColorSymbol::xyYx), keyword(ColorSymbol::LCHuvC), 0);
    lemma_no_match(s, j, keyword(ColorSymbol::xyYx), keyword(ColorSymbol::LCHuvH), 0);
    lemma_first_match(s, j, 0, 38);
}

proof fn lemma_found_xyy_y(s: Seq<char>, j: int)
    requires
        starts_with_at(s, j, keyword(ColorSymbol::xyYy)),
        j + keyword(ColorSymbol::xyYy).len() < s.len(),
        ends_name(s[j + keyword(ColorSymbol::xyYy).len()]),
    ensures
        symbol_at(s, j) == Some(ColorSymbol::xyYy),
{
    lemma_no_match(s, j, keyword(ColorSymbol::xyYy), keyword(ColorSymbol::Red255), 0);
    lemma_no_match(s, j, keyword(ColorSymbol::xyYy), keyword(ColorSymbol::Green255), 0);
    lemma_no_match(s, j, keyword(ColorSymbol::xyYy), keyword(ColorSymbol::Blue255), 0);
    lemma_no_match(s, j, keyword(ColorSymbol::xyYy), keyword(ColorSymbol::Red), 0);
    lemma_no_match(s, j, keyword(ColorSymbol::xyYy), keyword(ColorSymbol::Green), 0);
    lemma_no_match(s, j, keyword(ColorSymbol::xyYy), keyword(ColorSymbol::Blue), 0);
    lemma_no_match(s, j, keyword(ColorSymbol::xyYy), keyword(ColorSymbol::Cyan100), 0);
    lemma_no_match(s, j, keyword(ColorSymbol::xyYy), keyword(ColorSymbol::Magenta100), 0);
    lemma_no_match(s, j, keyword(ColorSymbol::xyYy), keyword(ColorSymbol::Yellow100), 0);
    lemma_no_match(s, j, keyword(ColorSymbol::xyYy), keyword(ColorSymbol::Key100), 0);
    lemma_no_match(s, j, keyword(ColorSymbol::xyYy), keyword(ColorSymbol::Cyan), 0);
    lemma_no_match(s, j, keyword(ColorSymbol::xyYy), keyword(ColorSymbol::Magenta), 0);
    lemma_no_match(s, j, keyword(ColorSymbol::xyYy), keyword(ColorSymbol::Yellow), 0);
    lemma_no_match(s, j, keyword(ColorSymbol::xyYy), keyword(ColorSymbol::Key), 0);
    lemma_no_match(s, j, keyword(ColorSymbol::xyYy), keyword(ColorSymbol::HSLHue360), 0);
    lemma_no_match(s, j, keyword(ColorSymbol::xyYy), keyword(ColorSymbol::HSLSaturation100), 0);
    lemma_no_match(s, j, keyword(ColorSymbol::xyYy), keyword(ColorSymbol::HSLLight100), 0);
    lemma_no_match(s, j, keyword(ColorSymbol::xyYy), keyword(ColorSymbol::HSLHue), 0);
    lemma_no_match(s, j, keyword(ColorSymbol::xyYy), keyword(ColorSymbol::HSLSaturation), 0);
    lemma_no_match(s, j, keyword(ColorSymbol::xyYy), keyword(ColorSymbol::HSLLight), 0);
    lemma_no_match(s, j, keyword(ColorSymbol::xyYy), keyword(ColorSymbol::HSVHue360), 0);
    lemma_no_match(s, j, keyword(ColorSymbol::xyYy), keyword(ColorSymbol::HSVSaturation100), 0);
    lemma_no_match(s, j, keyword(ColorSymbol::xyYy), keyword(ColorSymbol::HSVValue100), 0);
    lemma_no_match(s, j, keyword(ColorSymbol::xyYy), keyword(ColorSymbol::HSVHue), 0);
    lemma_no_match(s, j, keyword(ColorSymbol::xyYy), keyword(ColorSymbol::HSVSaturation), 0);
    lemma_no_match(s, j, keyword(ColorSymbol::xyYy), keyword(ColorSymbol::HSVValue), 0);
    lemma_no_match(s, j, keyword(ColorSymbol::xyYy), keyword(ColorSymbol::LabL), 0);
    lemma_no_match(s, j, keyword(ColorSymbol::xyYy), keyword(ColorSymbol::LabA), 0);
    lemma_no_match(s, j, keyword(ColorSymbol::xyYy), keyword(ColorSymbol::LabB), 0);
    lemma_no_match(s, j, keyword(ColorSymbol::xyYy), keyword(ColorSymbol::LCHabL), 0);
    lemma_no_match(s, j, keyword(ColorSymbol::xyYy), keyword(ColorSymbol::LCHabC), 0);
    lemma_no_match(s, j, keyword(ColorSymbol::xyYy), keyword(ColorSymbol::LCHabH), 0);
    lemma_no_match(s, j, keyword(ColorSymbol::xyYy), keyword(ColorSymbol::LuvL), 0);
    lemma_no_match(s, j, keyword(ColorSymbol::xyYy), keyword(ColorSymbol::LuvU), 0);
    lemma_no_match(s, j, keyword(ColorSymbol::xyYy), keyword(ColorSymbol::LuvV), 0);
    lemma_no_match(s, j, keyword(ColorSymbol::xyYy), keyword(ColorSymbol::LCHuvL), 0);
    lemma_no_match(s, j, keyword(ColorSymbol::xyYy), keyword(ColorSymbol::LCHuvC), 0);
    lemma_no_match(s, j, keyword(ColorSymbol::xyYy), keyword(ColorSymbol::LCHuvH), 0);
    lemma_no_match(s, j, keyword(ColorSymbol::xyYy), keyword(ColorSymbol::xyYx), 4);
    lemma_first_match(s, j, 0, 39);
}

proof fn lemma_found_xyy_big_y(s: Seq<char>, j: int)
    requires
        starts_with_at(s, j, keyword(ColorSymbol::xyYY)),
        j + keyword(ColorSymbol::xyYY).len() < s.len(),
        ends_name(s[j + keyword(ColorSymbol::xyYY).len()]),
    ensures
        symbol_at(s, j) == Some(ColorSymbol::xyYY),
{
    lemma_no_match(s, j, keyword(ColorSymbol::xyYY), keyword(ColorSymbol::Red255), 0);
    lemma_no_match(s, j, keyword(ColorSymbol::xyYY), keyword(ColorSymbol::Green255), 0);
    lemma_no_match(s, j, keyword(ColorSymbol::xyYY), keyword(ColorSymbol::Blue255), 0);
    lemma_no_match(s, j, keyword(ColorSymbol::xyYY), keyword(ColorSymbol::Red), 0);
    lemma_no_match(s, j, keyword(ColorSymbol::xyYY), keyword(ColorSymbol::Green), 0);
    lemma_no_match(s, j, keyword(ColorSymbol::xyYY), keyword(ColorSymbol::Blue), 0);
    lemma_no_match(s, j, keyword(ColorSymbol::xyYY), keyword(ColorSymbol::Cyan100), 0);
    lemma_no_match(s, j, keyword(ColorSymbol::xyYY), keyword(ColorSymbol::Magenta100), 0);
    lemma_no_match(s, j, keyword(ColorSymbol::xyYY), keyword(ColorSymbol::Yellow100), 0);
    lemma_no_match(s, j, keyword(ColorSymbol::xyYY), keyword(ColorSymbol::Key100), 0);
    lemma_no_match(s, j, keyword(ColorSymbol::xyYY), keyword(ColorSymbol::Cyan), 0);
    lemma_no_match(s, j, keyword(ColorSymbol::xyYY), keyword(ColorSymbol::Magenta), 0);
    lemma_no_match(s, j, keyword(ColorSymbol::xyYY), keyword(ColorSymbol::Yellow), 0);
    lemma_no_match(s, j, keyword(ColorSymbol::xyYY), keyword(ColorSymbol::Key), 0);
    lemma_no_match(s, j, keyword(ColorSymbol::xyYY), keyword(ColorSymbol::HSLHue360), 0);
    lemma_no_match(s, j, keyword(ColorSymbol::xyYY), keyword(ColorSymbol::HSLSaturation100), 0);
    lemma_no_match(s, j, keyword(ColorSymbol::xyYY), keyword(ColorSymbol::HSLLight100), 0);
    lemma_no_match(s, j, keyword(ColorSymbol::xyYY), keyword(ColorSymbol::HSLHue), 0);
    lemma_no_match(s, j, keyword(ColorSymbol::xyYY), keyword(ColorSymbol::HSLSaturation), 0);
    lemma_no_match(s, j, keyword(ColorSymbol::xyYY), keyword(ColorSymbol::HSLLight), 0);
    lemma_no_match(s, j, keyword(ColorSymbol::xyYY), keyword(ColorSymbol::HSVHue360), 0);
    lemma_no_match(s, j, keyword(ColorSymbol::xyYY), keyword(ColorSymbol::HSVSaturation100), 0);
    lemma_no_match(s, j, keyword(ColorSymbol::xyYY), keyword(ColorSymbol::HSVValue100), 0);
    lemma_no_match(s, j, keyword(ColorSymbol::xyYY), keyword(ColorSymbol::HSVHue), 0);
    lemma_no_match(s, j, keyword(ColorSymbol::xyYY), keyword(ColorSymbol::HSVSaturation), 0);
    lemma_no_match(s, j, keyword(ColorSymbol::xyYY), keyword(ColorSymbol::HSVValue), 0);
    lemma_no_match(s, j, keyword(ColorSymbol::xyYY), keyword(ColorSymbol::LabL), 0);
    lemma_no_match(s, j, keyword(ColorSymbol::xyYY), keyword(ColorSymbol::LabA), 0);
    lemma_no_match(s, j, keyword(ColorSymbol::xyYY), keyword(ColorSymbol::LabB), 0);
    lemma_no_match(s, j, keyword(ColorSymbol::xyYY), keyword(ColorSymbol::LCHabL), 0);
    lemma_no_match(s, j, keyword(ColorSymbol::xyYY), keyword(ColorSymbol::LCHabC), 0);
    lemma_no_match(s, j, keyword(ColorSymbol::xyYY), keyword(ColorSymbol::LCHabH), 0);
    lemma_no_match(s, j, keyword(ColorSymbol::xyYY), keyword(ColorSymbol::LuvL), 0);
    lemma_no_match(s, j, keyword(ColorSymbol::xyYY), keyword(ColorSymbol::LuvU), 0);
    lemma_no_match(s, j, keyword(ColorSymbol::xyYY), keyword(ColorSymbol::LuvV), 0);
    lemma_no_match(s, j, keyword(ColorSymbol::xyYY), keyword(ColorSymbol::LCHuvL), 0);
    lemma_no_match(s, j, keyword(ColorSymbol::xyYY), keyword(ColorSymbol::LCHuvC), 0);
    lemma_no_match(s, j, keyword(ColorSymbol::xyYY), keyword(ColorSymbol::LCHuvH), 0);
    lemma_no_match(s, j, keyword(ColorSymbol::xyYY), keyword(ColorSymbol::xyYx), 4);
    lemma_no_match(s, j, keyword(ColorSymbol::xyYY), keyword(ColorSymbol::xyYy), 4);
    lemma_first_match(s, j, 0, 40);
}

proof fn lemma_found_xyzx(s: Seq<char>, j: int)
    requires
        starts_with_at(s, j, keyword(ColorSymbol::XYZx)),
        j + keyword(ColorSymbol::XYZx).len() < s.len(),
        ends_name(s[j + keyword(ColorSymbol::XYZx).len()]),
    ensures
        symbol_at(s, j) == Some(ColorSymbol::XYZx),
{
    lemma_no_match(s, j, keyword(ColorSymbol::XYZx), keyword(ColorSymbol::Red255), 0);
    lemma_no_match(s, j, keyword(ColorSymbol::XYZx), keyword(ColorSymbol::Green255), 0);
    lemma_no_match(s, j, keyword(ColorSymbol::XYZx), keyword(ColorSymbol::Blue255), 0);
    lemma_no_match(s, j, keyword(ColorSymbol::XYZx), keyword(ColorSymbol::Red), 0);
    lemma_no_match(s, j, keyword(ColorSymbol::XYZx), keyword(ColorSymbol::Green), 0);
    lemma_no_match(s, j, keyword(ColorSymbol::XYZx), keyword(ColorSymbol::Blue), 0);
    lemma_no_match(s, j, keyword(ColorSymbol::XYZx), keyword(ColorSymbol::Cyan100), 0);
    lemma_no_match(s, j, keyword(ColorSymbol::XYZx), keyword(ColorSymbol::Magenta100), 0);
    lemma_no_match(s, j, keyword(ColorSymbol::XYZx), keyword(ColorSymbol::Yellow100), 0);
    lemma_no_match(s, j, keyword(ColorSymbol::XYZx), keyword(ColorSymbol::Key100), 0);
    lemma_no_match(s, j, keyword(ColorSymbol::XYZx), keyword(ColorSymbol::Cyan), 0);
    lemma_no_match(s, j, keyword(ColorSymbol::XYZx), keyword(ColorSymbol::Magenta), 0);
    lemma_no_match(s, j, keyword(ColorSymbol::XYZx), keyword(ColorSymbol::Yellow), 0);
    lemma_no_match(s, j, keyword(ColorSymbol::XYZx), keyword(ColorSymbol::Key), 0);
    lemma_no_match(s, j, keyword(ColorSymbol::XYZx), keyword(ColorSymbol::HSLHue360), 0);
    lemma_no_match(s, j, keyword(ColorSymbol::XYZx), keyword(ColorSymbol::HSLSaturation100), 0);
    lemma_no_match(s, j, keyword(ColorSymbol::XYZx), keyword(ColorSymbol::HSLLight100), 0);
    lemma_no_match(s, j, keyword(ColorSymbol::XYZx), keyword(ColorSymbol::HSLHue), 0);
    lemma_no_match(s, j, keyword(ColorSymbol::XYZx), keyword(ColorSymbol::HSLSaturation), 0);
    lemma_no_match(s, j, keyword(ColorSymbol::XYZx), keyword(ColorSymbol::HSLLight), 0);
    lemma_no_match(s, j, keyword(ColorSymbol::XYZx), keyword(ColorSymbol::HSVHue360), 0);
    lemma_no_match(s, j, keyword(ColorSymbol::XYZx), keyword(ColorSymbol::HSVSaturation100), 0);
    lemma_no_match(s, j, keyword(ColorSymbol::XYZx), keyword(ColorSymbol::HSVValue100), 0);
    lemma_no_match(s, j, keyword(ColorSymbol::XYZx), keyword(ColorSymbol::HSVHue), 0);
    lemma_no_match(s, j, keyword(ColorSymbol::XYZx), keyword(ColorSymbol::HSVSaturation), 0);
    lemma_no_match(s, j, keyword(ColorSymbol::XYZx), keyword(ColorSymbol::HSVValue), 0);
    lemma_no_match(s, j, keyword(ColorSymbol::XYZx), keyword(ColorSymbol::LabL), 0);
    lemma_no_match(s, j, keyword(ColorSymbol::XYZx), keyword(ColorSymbol::LabA), 0);
    lemma_no_match(s, j, keyword(ColorSymbol::XYZx), keyword(ColorSymbol::LabB), 0);
    lemma_no_match(s, j, keyword(ColorSymbol::XYZx), keyword(ColorSymbol::LCHabL), 0);
    lemma_no_match(s, j, keyword(ColorSymbol::XYZx), keyword(ColorSymbol::LCHabC), 0);
    lemma_no_match(s, j, keyword(ColorSymbol::XYZx), keyword(ColorSymbol::LCHabH), 0);
    lemma_no_match(s, j, keyword(ColorSymbol::XYZx), keyword(ColorSymbol::LuvL), 0);
    lemma_no_match(s, j, keyword(ColorSymbol::XYZx), keyword(ColorSymbol::LuvU), 0);
    lemma_no_match(s, j, keyword(ColorSymbol::XYZx), keyword(ColorSymbol::LuvV), 0);
    lemma_no_match(s, j, keyword(ColorSymbol::XYZx), keyword(ColorSymbol::LCHuvL), 0);
    lemma_no_match(s, j, keyword(ColorSymbol::XYZx), keyword(ColorSymbol::LCHuvC), 0);
    lemma_no_match(s, j, keyword(ColorSymbol::XYZx), keyword(ColorSymbol::LCHuvH), 0);
    lemma_no_match(s, j, keyword(ColorSymbol::XYZx), keyword(ColorSymbol::xyYx), 2);
    lemma_no_match(s, j, keyword(ColorSymbol::XYZx), keyword(ColorSymbol::xyYy), 2);
    lemma_no_match(s, j, keyword(ColorSymbol::XYZx), keyword(ColorSymbol::xyYY), 2);
    lemma_first_match(s, j, 0, 41);
}

proof fn lemma_found_xyzy(s: Seq<char>, j: int)
    requires
        starts_with_at(s, j, keyword(ColorSymbol::XYZy)),
        j + keyword(ColorSymbol::XYZy).len() < s.len(),
        ends_name(s[j + keyword(ColorSymbol::XYZy).len()]),
    ensures
        symbol_at(s, j) == Some(ColorSymbol::XYZy),
{
    lemma_no_match(s, j, keyword(ColorSymbol::XYZy), keyword(ColorSymbol::Red255), 0);
    lemma_no_match(s, j, keyword(ColorSymbol::XYZy), keyword(ColorSymbol::Green255), 0);
    lemma_no_match(s, j, keyword(ColorSymbol::XYZy), keyword(ColorSymbol::Blue255), 0);
    lemma_no_match(s, j, keyword(ColorSymbol::XYZy), keyword(ColorSymbol::Red), 0);
    lemma_no_match(s, j, keyword(ColorSymbol::XYZy), keyword(ColorSymbol::Green), 0);
    lemma_no_match(s, j, keyword(ColorSymbol::XYZy), keyword(ColorSymbol::Blue), 0);
    lemma_no_match(s, j, keyword(ColorSymbol::XYZy), keyword(ColorSymbol::Cyan100), 0);
    lemma_no_match(s, j, keyword(ColorSymbol::XYZy), keyword(ColorSymbol::Magenta100), 0);
    lemma_no_match(s, j, keyword(ColorSymbol::XYZy), keyword(ColorSymbol::Yellow100), 0);
    lemma_no_match(s, j, keyword(ColorSymbol::XYZy), keyword(ColorSymbol::Key100), 0);
    lemma_no_match(s, j, keyword(ColorSymbol::XYZy), keyword(ColorSymbol::Cyan), 0);
    lemma_no_match(s, j, keyword(ColorSymbol::XYZy), keyword(ColorSymbol::Magenta), 0);
    lemma_no_match(s, j, keyword(ColorSymbol::XYZy), keyword(ColorSymbol::Yellow), 0);
    lemma_no_match(s, j, keyword(ColorSymbol::XYZy), keyword(ColorSymbol::Key), 0);
    lemma_no_match(s, j, keyword(ColorSymbol::XYZy), keyword(ColorSymbol::HSLHue360), 0);
    lemma_no_match(s, j, keyword(ColorSymbol::XYZy), keyword(ColorSymbol::HSLSaturation100), 0);
    lemma_no_match(s, j, keyword(ColorSymbol::XYZy), keyword(ColorSymbol::HSLLight100), 0);
    lemma_no_match(s, j, keyword(ColorSymbol::XYZy), keyword(ColorSymbol::HSLHue), 0);
    lemma_no_match(s, j, keyword(ColorSymbol::XYZy), keyword(ColorSymbol::HSLSaturation), 0);
    lemma_no_match(s, j, keyword(ColorSymbol::XYZy), keyword(ColorSymbol::HSLLight), 0);
    lemma_no_match(s, j, keyword(ColorSymbol::XYZy), keyword(ColorSymbol::HSVHue360), 0);
    lemma_no_match(s, j, keyword(ColorSymbol::XYZy), keyword(ColorSymbol::HSVSaturation100), 0);
    lemma_no_match(s, j, keyword(ColorSymbol::XYZy), keyword(ColorSymbol::HSVValue100), 0);
    lemma_no_match(s, j, keyword(ColorSymbol::XYZy), keyword(ColorSymbol::HSVHue), 0);
    lemma_no_match(s, j, keyword(ColorSymbol::XYZy), keyword(ColorSymbol::HSVSaturation), 0);
    lemma_no_match(s, j, keyword(ColorSymbol::XYZy), keyword(ColorSymbol::HSVValue), 0);
    lemma_no_match(s, j, keyword(ColorSymbol::XYZy), keyword(ColorSymbol::LabL), 0);
    lemma_no_match(s, j, keyword(ColorSymbol::XYZy), keyword(ColorSymbol::LabA), 0);
    lemma_no_match(s, j, keyword(ColorSymbol::XYZy), keyword(ColorSymbol::LabB), 0);
    lemma_no_match(s, j, keyword(ColorSymbol::XYZy), keyword(ColorSymbol::LCHabL), 0);
    lemma_no_match(s, j, keyword(ColorSymbol::XYZy), keyword(ColorSymbol::LCHabC), 0);
    lemma_no_match(s, j, keyword(ColorSymbol::XYZy), keyword(ColorSymbol::LCHabH), 0);
    lemma_no_match(s, j, keyword(ColorSymbol::XYZy), keyword(ColorSymbol::LuvL), 0);
    lemma_no_match(s, j, keyword(ColorSymbol::XYZy), keyword(ColorSymbol::LuvU), 0);
    lemma_no_match(s, j, keyword(ColorSymbol::XYZy), keyword(ColorSymbol::LuvV), 0);
    lemma_no_match(s, j, keyword(ColorSymbol::XYZy), keyword(ColorSymbol::LCHuvL), 0);
    lemma_no_match(s, j, keyword(ColorSymbol::XYZy), keyword(ColorSymbol::LCHuvC), 0);
    lemma_no_match(s, j, keyword(ColorSymbol::XYZy), keyword(ColorSymbol::LCHuvH), 0);
    lemma_no_match(s, j, keyword(ColorSymbol::XYZy), keyword(ColorSymbol::xyYx), 2);
    lemma_no_match(s, j, keyword(ColorSymbol::XYZy), keyword(ColorSymbol::xyYy), 2);
    lemma_no_match(s, j, keyword(ColorSymbol::XYZy), keyword(ColorSymbol::xyYY), 2);
    lemma_no_match(s, j, keyword(ColorSymbol::XYZy), keyword(ColorSymbol::XYZx), 4);
    lemma_first_match(s, j, 0, 42);
}

proof fn lemma_found_xyzz(s: Seq<char>, j: int)
    requires
        starts_with_at(s, j, keyword(ColorSymbol::XYZz)),
        j + keyword(ColorSymbol::XYZz).len() < s.len(),
        ends_name(s[j + keyword(ColorSymbol::XYZz).len()]),
    ensures
        symbol_at(s, j) == Some(ColorSymbol::XYZz),
{
    lemma_no_match(s, j, keyword(ColorSymbol::XYZz), keyword(ColorSymbol::Red255), 0);
    lemma_no_match(s, j, keyword(ColorSymbol::XYZz), keyword(ColorSymbol::Green255), 0);
    lemma_no_match(s, j, keyword(ColorSymbol::XYZz), keyword(ColorSymbol::Blue255), 0);
    lemma_no_match(s, j, keyword(ColorSymbol::XYZz), keyword(ColorSymbol::Red), 0);
    lemma_no_match(s, j, keyword(ColorSymbol::XYZz), keyword(ColorSymbol::Green), 0);
    lemma_no_match(s, j, keyword(ColorSymbol::XYZz), keyword(ColorSymbol::Blue), 0);
    lemma_no_match(s, j, keyword(ColorSymbol::XYZz), keyword(ColorSymbol::Cyan100), 0);
    lemma_no_match(s, j, keyword(ColorSymbol::XYZz), keyword(ColorSymbol::Magenta100), 0);
    lemma_no_match(s, j, keyword(ColorSymbol::XYZz), keyword(ColorSymbol::Yellow100), 0);
    lemma_no_match(s, j, keyword(ColorSymbol::XYZz), keyword(ColorSymbol::Key100), 0);
    lemma_no_match(s, j, keyword(ColorSymbol::XYZz), keyword(ColorSymbol::Cyan), 0);
    lemma_no_match(s, j, keyword(ColorSymbol::XYZz), keyword(ColorSymbol::Magenta), 0);
    lemma_no_match(s, j, keyword(ColorSymbol::XYZz), keyword(ColorSymbol::Yellow), 0);
    lemma_no_match(s, j, keyword(ColorSymbol::XYZz), keyword(ColorSymbol::Key), 0);
    lemma_no_match(s, j, keyword(ColorSymbol::XYZz), keyword(ColorSymbol::HSLHue360), 0);
    lemma_no_match(s, j, keyword(ColorSymbol::XYZz), keyword(ColorSymbol::HSLSaturation100), 0);
    lemma_no_match(s, j, keyword(ColorSymbol::XYZz), keyword(ColorSymbol::HSLLight100), 0);
    lemma_no_match(s, j, keyword(ColorSymbol::XYZz), keyword(ColorSymbol::HSLHue), 0);
    lemma_no_match(s, j, keyword(ColorSymbol::XYZz), keyword(ColorSymbol::HSLSaturation), 0);
    lemma_no_match(s, j, keyword(ColorSymbol::XYZz), keyword(ColorSymbol::HSLLight), 0);
    lemma_no_match(s, j, keyword(ColorSymbol::XYZz), keyword(ColorSymbol::HSVHue360), 0);
    lemma_no_match(s, j, keyword(ColorSymbol::XYZz), keyword(ColorSymbol::HSVSaturation100), 0);
    lemma_no_match(s, j, keyword(ColorSymbol::XYZz), keyword(ColorSymbol::HSVValue100), 0);
    lemma_no_match(s, j, keyword(ColorSymbol::XYZz), keyword(ColorSymbol::HSVHue), 0);
    lemma_no_match(s, j, keyword(ColorSymbol::XYZz), keyword(ColorSymbol::HSVSaturation), 0);
    lemma_no_match(s, j, keyword(ColorSymbol::XYZz), keyword(ColorSymbol::HSVValue), 0);
    lemma_no_match(s, j, keyword(ColorSymbol::XYZz), keyword(ColorSymbol::LabL), 0);
    lemma_no_match(s, j, keyword(ColorSymbol::XYZz), keyword(ColorSymbol::LabA), 0);
    lemma_no_match(s, j, keyword(ColorSymbol::XYZz), keyword(ColorSymbol::LabB), 0);
    lemma_no_match(s, j, keyword(ColorSymbol::XYZz), keyword(ColorSymbol::LCHabL), 0);
    lemma_no_match(s, j, keyword(ColorSymbol::XYZz), keyword(ColorSymbol::LCHabC), 0);
    lemma_no_match(s, j, keyword(ColorSymbol::XYZz), keyword(ColorSymbol::LCHabH), 0);
    lemma_no_match(s, j, keyword(ColorSymbol::XYZz), keyword(ColorSymbol::LuvL), 0);
    lemma_no_match(s, j, keyword(ColorSymbol::XYZz), keyword(ColorSymbol::LuvU), 0);
    lemma_no_match(s, j, keyword(ColorSymbol::XYZz), keyword(ColorSymbol::LuvV), 0);
    lemma_no_match(s, j, keyword(ColorSymbol::XYZz), keyword(ColorSymbol::LCHuvL), 0);
    lemma_no_match(s, j, keyword(ColorSymbol::XYZz), keyword(ColorSymbol::LCHuvC), 0);
    lemma_no_match(s, j, keyword(ColorSymbol::XYZz), keyword(ColorSymbol::LCHuvH), 0);
    lemma_no_match(s, j, keyword(ColorSymbol::XYZz), keyword(ColorSymbol::xyYx), 2);
    lemma_no_match(s, j, keyword(ColorSymbol::XYZz), keyword(ColorSymbol::xyYy), 2);
    lemma_no_match(s, j, keyword(ColorSymbol::XYZz), keyword(ColorSymbol::xyYY), 2);
    lemma_no_match(s, j, keyword(ColorSymbol::XYZz), keyword(ColorSymbol::XYZx), 4);
    lemma_no_match(s, j, keyword(ColorSymbol::XYZz), keyword(ColorSymbol::XYZy), 4);
    lemma_first_match(s, j, 0, 43);
}


/// How a digit format is written in a field: `:x`, `:X`, `:o`, `:d`, or `:.` and the precision
/// in decimal; nothing when there is none.
pub open spec fn digit_format_text(f: Option<DigitFormat>) -> Seq<char> {
    match f {
        None => Seq::empty(),
        Some(DigitFormat::Hex) => seq![':', 'x'],
        Some(DigitFormat::UppercaseHex) => seq![':', 'X'],
        Some(DigitFormat::Octal) => seq![':', 'o'],
        Some(DigitFormat::Decimal) => seq![':', 'd'],
        Some(DigitFormat::Float { precision }) => seq![':', '.'] + DigitFormat::Decimal.number_text(
            precision as nat,
        ),
    }
}

/// Every character of `t` is a blank.
pub open spec fn all_blanks(t: Seq<char>) -> bool {
    forall|i: int| 0 <= i < t.len() ==> is_blank(#[trigger] t[i])
}

/// A field written with the blanks `before` after its opening brace and `after` before its
/// closing brace.
pub open spec fn field_text(
    symbol: ColorSymbol,
    f: Option<DigitFormat>,
    before: Seq<char>,
    after: Seq<char>,
) -> Seq<char> {
    seq!['{'] + before + keyword(symbol) + digit_format_text(f) + after + seq!['}']
}

proof fn lemma_keyword_starts(symbol: ColorSymbol)
    ensures
        keyword(symbol).len() >= 1,
        !is_blank(keyword(symbol)[0]),
        keyword(symbol)[0] != '{',
{
}

proof fn lemma_blanks_run(s: Seq<char>, i: int, n: int)
    requires
        0 <= i,
        0 <= n,
        i + n <= s.len(),
        forall|x: int| i <= x < i + n ==> is_blank(#[trigger] s[x]),
        i + n == s.len() || !is_blank(s[i + n]),
    ensures
        blanks_len(s, i) == n,
    decreases n,
{
    if n > 0 {
        lemma_blanks_run(s, i + 1, n - 1);
    }
}

proof fn lemma_digits_run(s: Seq<char>, i: int, n: int)
    requires
        0 <= i,
        0 <= n,
        i + n <= s.len(),
        forall|x: int| i <= x < i + n ==> is_digit(#[trigger] s[x]),
        i + n == s.len() || !is_digit(s[i + n]),
    ensures
        digits_len(s, i) == n,
    decreases n,
{
    if n > 0 {
        lemma_digits_run(s, i + 1, n - 1);
    }
}

/// The decimal text of a number is not empty and holds only digits.
proof fn lemma_decimal_text_digits(n: nat)
    ensures
        DigitFormat::Decimal.number_text(n).len() >= 1,
        forall|i: int|
            0 <= i < DigitFormat::Decimal.number_text(n).len() ==> is_digit(
                #[trigger] DigitFormat::Decimal.number_text(n)[i],
            ),
    decreases n,
{
    let f = DigitFormat::Decimal;
    if n < 10 {
        assert(crate::digits::digits_of(n, 10) == seq![n as u32]);
        assert(seq![n as u32].drop_first() =~= Seq::<u32>::empty());
        assert(f.digit_text(Seq::<u32>::empty()) == Seq::<char>::empty());
        assert(f.number_text(n) =~= seq![(48 + n) as char]);
    } else {
        lemma_decimal_text_digits(n / 10);
        let d = (n % 10) as u32;
        assert(crate::digits::digits_of(n, 10) == crate::digits::digits_of(n / 10, 10).push(d));
        f.lemma_digit_text_append(crate::digits::digits_of(n / 10, 10), d);
        assert(f.number_text(n) == f.number_text(n / 10) + seq![(48 + d) as char]);
    }
}

/// A field reads the same whatever blanks (spaces and tabs) follow its opening brace and precede
/// its closing brace: `{r}`, `{ r }` and `{    r     }` each parse to the one color field.
pub proof fn law_blanks_in_fields(
    symbol: ColorSymbol,
    f: Option<DigitFormat>,
    before: Seq<char>,
    after: Seq<char>,
)
    requires
        all_blanks(before),
        all_blanks(after),
    ensures
        parse_tokens(field_text(symbol, f, before, after)) == seq![
            SpecToken::Color(ColorField { symbol, digit_format: f }),
        ],
{
    let w = keyword(symbol);
    let ft = digit_format_text(f);
    let t = field_text(symbol, f, before, after);
    let j: int = before.len() as int + 1;
    let k: int = j + w.len();
    let m: int = k + ft.len();
    let q: int = m + after.len();
    lemma_keyword_starts(symbol);
    assert(t.len() == q + 1);
    assert(t[0] == '{');
    assert(t[q] == '}');
    assert forall|x: int| 0 <= x < before.len() implies t[1 + x] == before[x] by {}
    assert forall|x: int| 0 <= x < w.len() implies t[j + x] == w[x] by {}
    assert forall|x: int| 0 <= x < ft.len() implies t[k + x] == ft[x] by {}
    assert forall|x: int| 0 <= x < after.len() implies t[m + x] == after[x] by {}
    // The blanks after the opening brace end where the name starts.
    assert forall|x: int| 1 <= x < 1 + before.len() implies is_blank(#[trigger] t[x]) by {
        assert(t[1 + (x - 1)] == before[x - 1]);
    }
    assert(t[j] == w[0]);
    lemma_blanks_run(t, 1, before.len() as int);
    // The name is found, since the character behind it ends a name.
    assert(t.subrange(j, k) =~= w);
    if ft.len() > 0 {
        assert(t[k] == ft[0]);
    } else if after.len() > 0 {
        assert(t[k] == after[0]);
    }
    lemma_symbol_found(t, j, symbol);
    // The digit format.
    let end_fmt = match f {
        Some(DigitFormat::Float { precision }) => {
            let d = DigitFormat::Decimal.number_text(precision as nat);
            lemma_decimal_text_digits(precision as nat);
            crate::digits::law_decimal_text_reads_back(precision as nat);
            assert(ft.len() == 2 + d.len());
            assert forall|x: int| k + 2 <= x < k + 2 + d.len() implies is_digit(#[trigger] t[x]) by {
                assert(t[k + (x - k)] == ft[x - k]);
                assert(ft[x - k] == d[x - k - 2]);
            }
            if after.len() > 0 {
                assert(t[m] == after[0]);
            }
            lemma_digits_run(t, k + 2, d.len() as int);
            assert(t.subrange(k + 2, k + 2 + d.len()) =~= d);
            assert(t[k] == ft[0]);
            assert(t[k + 1] == ft[1]);
            assert(digit_format_at(t, k) == Some((DigitFormat::Float { precision }, ft.len())));
            m
        },
        Some(g) => {
            assert(t[k] == ft[0]);
            assert(t[k + 1] == ft[1]);
            assert(digit_format_at(t, k) == Some((g, 2nat)));
            m
        },
        None => {
            assert(digit_format_at(t, k) is None);
            k
        },
    };
    assert(end_fmt == m);
    // The blanks before the closing brace.
    assert forall|x: int| m <= x < m + after.len() implies is_blank(#[trigger] t[x]) by {
        assert(t[m + (x - m)] == after[x - m]);
    }
    lemma_blanks_run(t, m, after.len() as int);
    let field = ColorField { symbol, digit_format: f };
    assert(color_field_at(t, 0) == Some((field, t.len())));
    assert(token_at(t, 0) == (SpecToken::Color(field), t.len()));
    assert(tokens_from(t, t.len() as int) == Seq::<SpecToken>::empty());
    assert(tokens_from(t, 0) =~= seq![SpecToken::Color(field)]);
}

} // verus!

verus! {

/// The names of the fields as the format language documents them, one per symbol.
pub open spec fn field_name(symbol: ColorSymbol) -> Seq<char> {
    match symbol {
        ColorSymbol::Red => seq!['r'],
        ColorSymbol::Green => seq!['g'],
        ColorSymbol::Blue => seq!['b'],
        ColorSymbol::Red255 => seq!['r', '2', '5', '5'],
        ColorSymbol::Green255 => seq!['g', '2', '5', '5'],
        ColorSymbol::Blue255 => seq!['b', '2', '5', '5'],
        ColorSymbol::Cyan => seq!['c'],
        ColorSymbol::Magenta => seq!['m'],
        ColorSymbol::Yellow => seq!['y'],
        ColorSymbol::Key => seq!['k'],
        ColorSymbol::Cyan100 => seq!['c', '1', '0', '0'],
        ColorSymbol::Magenta100 => seq!['m', '1', '0', '0'],
        ColorSymbol::Yellow100 => seq!['y', '1', '0', '0'],
        ColorSymbol::Key100 => seq!['k', '1', '0', '0'],
        ColorSymbol::HSLHue => seq!['h', 's', 'l', '_', 'h'],
        ColorSymbol::HSLSaturation => seq!['h', 's', 'l', '_', 's'],
        ColorSymbol::HSLLight => seq!['h', 's', 'l', '_', 'l'],
        ColorSymbol::HSLHue360 => seq!['h', 's', 'l', '_', 'h', '3', '6', '0'],
        ColorSymbol::HSLSaturation100 => seq!['h', 's', 'l', '_', 's', '1', '0', '0'],
        ColorSymbol::HSLLight100 => seq!['h', 's', 'l', '_', 'l', '1', '0', '0'],
        ColorSymbol::HSVHue => seq!['h', 's', 'v', '_', 'h'],
        ColorSymbol::HSVSaturation => seq!['h', 's', 'v', '_', 's'],
        ColorSymbol::HSVValue => seq!['h', 's', 'v', '_', 'v'],
        ColorSymbol::HSVHue360 => seq!['h', 's', 'v', '_', 'h', '3', '6', '0'],
        ColorSymbol::HSVSaturation100 => seq!['h', 's', 'v', '_', 's', '1', '0', '0'],
        ColorSymbol::HSVValue100 => seq!['h', 's', 'v', '_', 'v', '1', '0', '0'],
        ColorSymbol::LabL => seq!['l', 'a', 'b', '_', 'l'],
        ColorSymbol::LabA => seq!['l', 'a', 'b', '_', 'a'],
        ColorSymbol::LabB => seq!['l', 'a', 'b', '_', 'b'],
        ColorSymbol::LCHabL => seq!['l', 'c', 'h', '_', 'a', 'b', '_', 'l'],
        ColorSymbol::LCHabC => seq!['l', 'c', 'h', '_', 'a', 'b', '_', 'c'],
        ColorSymbol::LCHabH => seq!['l', 'c', 'h', '_', 'a', 'b', '_', 'h'],
        ColorSymbol::LuvL => seq!['l', 'u', 'v', '_', 'l'],
        ColorSymbol::LuvU => seq!['l', 'u', 'v', '_', 'u'],
        ColorSymbol::LuvV => seq!['l', 'u', 'v', '_', 'v'],
        ColorSymbol::LCHuvL => seq!['l', 'c', 'h', '_', 'u', 'v', '_', 'l'],
        ColorSymbol::LCHuvC => seq!['l', 'c', 'h', '_', 'u', 'v', '_', 'c'],
        ColorSymbol::LCHuvH => seq!['l', 'c', 'h', '_', 'u', 'v', '_', 'h'],
        ColorSymbol::xyYx => seq!['x', 'y', 'y', '_', 'x'],
        ColorSymbol::xyYy => seq!['x', 'y', 'y', '_', 'y'],
        ColorSymbol::xyYY => seq!['x', 'y', 'y', '_', 'Y'],
        ColorSymbol::XYZx => seq!['x', 'y', 'z', '_', 'x'],
        ColorSymbol::XYZy => seq!['x', 'y', 'z', '_', 'y'],
        ColorSymbol::XYZz => seq!['x', 'y', 'z', '_', 'z'],
    }
}

/// A field written with the documented name of a symbol, `{name}`, parses to that symbol: the
/// names that the parser knows are the documented ones, each for its own symbol.
pub proof fn law_field_names(symbol: ColorSymbol)
    ensures
        parse_tokens(seq!['{'] + field_name(symbol) + seq!['}']) == seq![
            SpecToken::Color(ColorField { symbol, digit_format: None }),
        ],
{
    assert(field_name(symbol) =~= keyword(symbol));
    let e = Seq::<char>::empty();
    law_blanks_in_fields(symbol, None, e, e);
    assert(field_text(symbol, None, e, e) =~= seq!['{'] + field_name(symbol) + seq!['}']);
}

} // verus!
