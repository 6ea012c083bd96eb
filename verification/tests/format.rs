use epick::digits::DigitFormat;
use epick::format::{ColorField, ColorFormat, ColorSymbol, FormatToken};

fn field(symbol: ColorSymbol) -> FormatToken {
    FormatToken::Color(ColorField {
        symbol,
        digit_format: None,
    })
}

fn field_fmt(symbol: ColorSymbol, fmt: DigitFormat) -> FormatToken {
    FormatToken::Color(ColorField {
        symbol,
        digit_format: Some(fmt),
    })
}

fn text(s: &str) -> FormatToken {
    FormatToken::Text(s.to_string())
}

fn check(input: &str, want: ColorFormat) {
    let parsed = ColorFormat::parse(input).unwrap();
    assert_eq!(parsed, want);
}

#[test]
fn parses_basic_color_format() {
    check(
        "{r} {g} {b}",
        vec![
            field(ColorSymbol::Red),
            text(" "),
            field(ColorSymbol::Green),
            text(" "),
            field(ColorSymbol::Blue),
        ]
        .into(),
    );
    check(
        "{ c }{m} { y  }   {   k }%",
        vec![
            field(ColorSymbol::Cyan),
            field(ColorSymbol::Magenta),
            text(" "),
            field(ColorSymbol::Yellow),
            text("   "),
            field(ColorSymbol::Key),
            text("%"),
        ]
        .into(),
    );
    check(
        "{hsv_h} {{ {hsv_s} }} {hsv_v}",
        vec![
            field(ColorSymbol::HSVHue),
            text(" "),
            text("{"),
            text("{"),
            text(" "),
            field(ColorSymbol::HSVSaturation),
            text(" }} "),
            field(ColorSymbol::HSVValue),
        ]
        .into(),
    );
}

#[test]
fn parses_digit_format() {
    check(
        "L:{ lch_ab_l:x } C:{lch_ab_c:X} H:{lch_ab_h:o} r:{r:.4}",
        vec![
            text("L:"),
            field_fmt(ColorSymbol::LCHabL, DigitFormat::Hex),
            text(" C:"),
            field_fmt(ColorSymbol::LCHabC, DigitFormat::UppercaseHex),
            text(" H:"),
            field_fmt(ColorSymbol::LCHabH, DigitFormat::Octal),
            text(" r:"),
            field_fmt(ColorSymbol::Red, DigitFormat::Float { precision: 4 }),
        ]
        .into(),
    );
}

#[test]
fn spaces_inside_braces_do_not_matter() {
    let a = ColorFormat::parse("{r} {g} {b}").unwrap();
    let b = ColorFormat::parse("{ r } {  g} {    b     }").unwrap();
    assert_eq!(a, b);
    let c = ColorFormat::parse("{\tr255:x\t }").unwrap();
    assert_eq!(c, vec![field_fmt(ColorSymbol::Red255, DigitFormat::Hex)].into());
}

#[test]
fn longer_names_win() {
    check(
        "{r255}{hsl_h360}{c100}{xyy_Y}{xyz_z}{lab_b}{luv_u}{lch_uv_c}",
        vec![
            field(ColorSymbol::Red255),
            field(ColorSymbol::HSLHue360),
            field(ColorSymbol::Cyan100),
            field(ColorSymbol::xyYY),
            field(ColorSymbol::XYZz),
            field(ColorSymbol::LabB),
            field(ColorSymbol::LuvU),
            field(ColorSymbol::LCHuvC),
        ]
        .into(),
    );
}

#[test]
fn malformed_fields_stay_text() {
    // An unknown name, a name with trailing characters, a bad digit format and an unclosed
    // field are all kept as text, the opening brace on its own.
    check("{q}", vec![text("{"), text("q}")].into());
    check("{r2555}", vec![text("{"), text("r2555}")].into());
    check("{r:z}", vec![text("{"), text("r:z}")].into());
    check("{g:.}", vec![text("{"), text("g:.}")].into());
    check("{b:.256}", vec![text("{"), text("b:.256}")].into());
    check("{r", vec![text("{"), text("r")].into());
    check("", vec![].into());
    check("plain text", vec![text("plain text")].into());
}

#[test]
fn precision_reads_leading_zeros() {
    check(
        "{r:.0004}{g:.255}{b:.0}",
        vec![
            field_fmt(ColorSymbol::Red, DigitFormat::Float { precision: 4 }),
            field_fmt(ColorSymbol::Green, DigitFormat::Float { precision: 255 }),
            field_fmt(ColorSymbol::Blue, DigitFormat::Float { precision: 0 }),
        ]
        .into(),
    );
}

#[test]
fn non_ascii_text_is_kept() {
    check("°{hsl_h}é", vec![text("°"), field(ColorSymbol::HSLHue), text("é")].into());
}

fn formatted(fmt: DigitFormat, num: u32) -> String {
    let mut s = String::new();
    let mut stack = Vec::new();
    fmt.format_num(num, &mut s, &mut stack);
    assert!(stack.is_empty());
    s
}

#[test]
fn formats_numbers_in_each_radix() {
    assert_eq!(formatted(DigitFormat::Decimal, 0), "0");
    assert_eq!(formatted(DigitFormat::Decimal, 127), "127");
    assert_eq!(formatted(DigitFormat::Octal, 127), "177");
    assert_eq!(formatted(DigitFormat::Hex, 127), "7f");
    assert_eq!(formatted(DigitFormat::UppercaseHex, 127), "7F");
    assert_eq!(formatted(DigitFormat::UppercaseHex, 75), "4B");
    assert_eq!(formatted(DigitFormat::Hex, 47), "2f");
    assert_eq!(formatted(DigitFormat::Decimal, 326), "326");
    assert_eq!(formatted(DigitFormat::Decimal, u32::MAX), "4294967295");
    assert_eq!(formatted(DigitFormat::Float { precision: 3 }, 905), "905");
}

#[test]
fn radix_of_each_format() {
    assert_eq!(DigitFormat::Octal.radix(), 8);
    assert_eq!(DigitFormat::Decimal.radix(), 10);
    assert_eq!(DigitFormat::Hex.radix(), 16);
    assert_eq!(DigitFormat::UppercaseHex.radix(), 16);
    assert_eq!(DigitFormat::Float { precision: 2 }.radix(), 10);
}

#[test]
fn formats_with_a_digit_count() {
    let mut s = String::new();
    let mut stack = Vec::new();
    DigitFormat::Decimal.format_num_count(68181, &mut s, &mut stack, 4);
    assert_eq!(s, "6818");
    assert!(stack.is_empty());
    DigitFormat::Decimal.format_num_count(27, &mut s, &mut stack, 0);
    assert_eq!(s, "6818");
    DigitFormat::Decimal.format_num_count(27, &mut s, &mut stack, 9);
    assert_eq!(s, "681827");
}

#[test]
fn leftover_stack_values_follow_the_number() {
    let mut s = String::new();
    let mut stack = vec![20, 3];
    DigitFormat::Decimal.format_num(45, &mut s, &mut stack);
    // 45, then the leftover values from the top of the stack down; 20 is no digit.
    assert_eq!(s, "453");
    assert!(stack.is_empty());
}

#[test]
fn populates_stack_with_most_significant_digit_on_top() {
    let mut stack = Vec::new();
    DigitFormat::Hex.populate_stack(0x1a2, &mut stack);
    assert_eq!(stack, vec![2, 10, 1]);
    DigitFormat::Octal.populate_stack(0, &mut stack);
    assert_eq!(stack, vec![2, 10, 1, 0]);
}

#[test]
fn formats_digits() {
    assert_eq!(DigitFormat::Hex.format_digit(11), Some('b'));
    assert_eq!(DigitFormat::UppercaseHex.format_digit(11), Some('B'));
    assert_eq!(DigitFormat::Octal.format_digit(8), None);
    assert_eq!(DigitFormat::Decimal.format_digit(9), Some('9'));
}
