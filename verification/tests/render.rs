use epick::digits::DigitFormat;
use epick::format::{ColorField, ColorFormat, ColorSymbol, FormatToken};
use epick::render::FieldValue;
use epick::ui::ColorDisplayFormat;

fn field(symbol: ColorSymbol, digit_format: Option<DigitFormat>) -> ColorField {
    ColorField {
        symbol,
        digit_format,
    }
}

#[test]
fn writes_whole_channels() {
    let f = ColorFormat::parse("{r255} {g255} {b255}").unwrap();
    let values = vec![
        FieldValue::Whole { negative: false, value: 127 },
        FieldValue::Skipped,
        FieldValue::Whole { negative: false, value: 127 },
        FieldValue::Skipped,
        FieldValue::Whole { negative: false, value: 127 },
    ];
    assert_eq!(f.format_color(&values), "127 127 127");
}

#[test]
fn writes_channels_in_radixes() {
    let f = ColorFormat::parse("r:0o{r255:o} g:0x{g255:X} b:0x{b255:x}").unwrap();
    let values = vec![
        FieldValue::Skipped,
        FieldValue::Whole { negative: false, value: 127 },
        FieldValue::Skipped,
        FieldValue::Whole { negative: false, value: 127 },
        FieldValue::Skipped,
        FieldValue::Whole { negative: false, value: 127 },
    ];
    assert_eq!(f.format_color(&values), "r:0o177 g:0x7F b:0x7f");
}

#[test]
fn writes_decimals_with_precision() {
    let f = ColorFormat::parse("{lab_l:.4} {lab_a:.0} {lab_b:.2}").unwrap();
    let values = vec![
        FieldValue::Decimal {
            negative: false,
            whole: 55,
            fract: 68181,
            fract_len: 5,
        },
        FieldValue::Skipped,
        FieldValue::Decimal {
            negative: true,
            whole: 17,
            fract: 3,
            fract_len: 1,
        },
        FieldValue::Skipped,
        FieldValue::Decimal {
            negative: true,
            whole: 27,
            fract: 2751,
            fract_len: 4,
        },
    ];
    assert_eq!(f.format_color(&values), "55.6818 -17 -27.27");
}

#[test]
fn writes_decimals_without_precision() {
    let f = ColorFormat::parse("{r} {g} {b}").unwrap();
    let half = FieldValue::Decimal {
        negative: false,
        whole: 0,
        fract: 5,
        fract_len: 1,
    };
    let values = vec![half, FieldValue::Skipped, half, FieldValue::Skipped, half];
    assert_eq!(f.format_color(&values), "0.5 0.5 0.5");
}

#[test]
fn writes_scaled_fields_in_radixes() {
    let f = ColorFormat::parse("{hsv_h360:d} {hsv_s100:X} {hsv_v100:x}").unwrap();
    let values = vec![
        FieldValue::Whole { negative: false, value: 326 },
        FieldValue::Skipped,
        FieldValue::Whole { negative: false, value: 75 },
        FieldValue::Skipped,
        FieldValue::Whole { negative: false, value: 47 },
    ];
    assert_eq!(f.format_color(&values), "326 4B 2f");
}

#[test]
fn skipped_fields_write_nothing() {
    let f = ColorFormat::parse("[{r}]").unwrap();
    let values = vec![FieldValue::Skipped, FieldValue::Skipped, FieldValue::Skipped];
    assert_eq!(f.format_color(&values), "[]");
}

#[test]
fn which_fields_are_whole() {
    assert!(field(ColorSymbol::Red255, None).renders_whole());
    assert!(field(ColorSymbol::Blue255, Some(DigitFormat::Float { precision: 2 })).renders_whole());
    assert!(field(ColorSymbol::Red, Some(DigitFormat::Hex)).renders_whole());
    assert!(field(ColorSymbol::LabL, Some(DigitFormat::Decimal)).renders_whole());
    assert!(!field(ColorSymbol::Red, None).renders_whole());
    assert!(!field(ColorSymbol::LabL, Some(DigitFormat::Float { precision: 3 })).renders_whole());
}

#[test]
fn field_formats() {
    assert_eq!(field(ColorSymbol::Red255, None).whole_format(), DigitFormat::Decimal);
    assert_eq!(
        field(ColorSymbol::Red255, Some(DigitFormat::Octal)).whole_format(),
        DigitFormat::Octal
    );
    assert_eq!(
        field(ColorSymbol::LabA, Some(DigitFormat::Float { precision: 3 })).precision(),
        Some(3)
    );
    assert_eq!(field(ColorSymbol::LabA, None).precision(), None);
    assert_eq!(field(ColorSymbol::LabA, Some(DigitFormat::Hex)).precision(), None);
}

#[test]
fn float_parts() {
    let mut s = String::new();
    let mut stack = Vec::new();
    DigitFormat::format_float(true, 12, 345, 3, &mut s, &mut stack, None);
    assert_eq!(s, "-12.345");
    assert!(stack.is_empty());

    let mut s = String::new();
    DigitFormat::format_float(false, 0, 345, 3, &mut s, &mut stack, Some(2));
    assert_eq!(s, "0.34");

    let mut s = String::new();
    DigitFormat::format_float(false, 7, 5, 1, &mut s, &mut stack, Some(3));
    assert_eq!(s, "7.5");

    let mut s = String::new();
    DigitFormat::format_float(false, 7, 5, 1, &mut s, &mut stack, Some(0));
    assert_eq!(s, "7");
}

#[test]
fn displays_in_each_format() {
    let rgb = (35, 144, 180);
    let hsl = (195, 67, 42);
    assert_eq!(ColorDisplayFormat::Hex.display(rgb, hsl, &vec![]), "#2390b4");
    assert_eq!(ColorDisplayFormat::HexUpercase.display(rgb, hsl, &vec![]), "#2390B4");
    assert_eq!(ColorDisplayFormat::CssRgb.display(rgb, hsl, &vec![]), "rgb(35,144,180)");
    assert_eq!(
        ColorDisplayFormat::CssHsl { degree_symbol: true }.display(rgb, hsl, &vec![]),
        "hsl(195°,67%,42%)"
    );
    assert_eq!(
        ColorDisplayFormat::CssHsl { degree_symbol: false }.display(rgb, hsl, &vec![]),
        "hsl(195,67%,42%)"
    );
    let fields = vec![
        FieldValue::Skipped,
        FieldValue::Whole { negative: false, value: 35 },
        FieldValue::Skipped,
    ];
    assert_eq!(
        ColorDisplayFormat::Custom("r={r255};").display(rgb, hsl, &fields),
        "r=35;"
    );
}

#[test]
fn fraction_keeps_leading_zeros() {
    let mut s = String::new();
    let mut stack = Vec::new();
    DigitFormat::format_float(false, 0, 5, 2, &mut s, &mut stack, Some(2));
    assert_eq!(s, "0.05");
    let mut s = String::new();
    DigitFormat::format_float(false, 3, 7, 3, &mut s, &mut stack, None);
    assert_eq!(s, "3.007");
    let f = ColorFormat::parse("{r:.2}").unwrap();
    let v = FieldValue::Decimal {
        negative: false,
        whole: 0,
        fract: 5,
        fract_len: 2,
    };
    assert_eq!(f.format_color(&vec![v]), "0.05");
}

#[test]
fn whole_numbers_keep_their_sign() {
    let f = ColorFormat::parse("{lab_a:d} {lab_b:x}").unwrap();
    let values = vec![
        FieldValue::Whole {
            negative: true,
            value: 17,
        },
        FieldValue::Skipped,
        FieldValue::Whole {
            negative: true,
            value: 27,
        },
    ];
    assert_eq!(f.format_color(&values), "-17 -1b");
}

/// The value of a field from a coordinate, as the picker computes it: cut to a whole number
/// for the integer digit formats, else split into sign, whole part and fraction digits.
fn value_of(field: &ColorField, num: f32) -> FieldValue {
    if field.renders_whole() {
        let whole = num.trunc();
        return FieldValue::Whole {
            negative: whole < 0.,
            value: whole.abs() as u32,
        };
    }
    if num.is_nan() || num.is_infinite() || num.is_subnormal() {
        return FieldValue::Skipped;
    }
    let negative = num.is_sign_negative();
    let num = num.abs();
    let mut fract = num.fract() * 10.;
    let mut fract_len: u32 = 1;
    while fract.fract() != 0. {
        fract *= 10.;
        fract_len += 1;
    }
    FieldValue::Decimal {
        negative,
        whole: num.trunc() as u32,
        fract: fract as u32,
        fract_len,
    }
}

/// Writes `numbers`, the coordinates of a color named by the fields of `fmt` in order.
fn format_numbers(fmt: &str, numbers: &[f32]) -> String {
    let format = ColorFormat::parse(fmt).unwrap();
    let mut next = numbers.iter();
    let values: Vec<FieldValue> = format
        .tokens()
        .iter()
        .map(|t| match t {
            FormatToken::Text(_) => FieldValue::Skipped,
            FormatToken::Color(field) => value_of(field, *next.next().unwrap()),
        })
        .collect();
    format.format_color(&values)
}

#[test]
fn formats_custom_color_string() {
    // rgb(0.5, 0.5, 0.5)
    assert_eq!(format_numbers("{r} {g} {b}", &[0.5, 0.5, 0.5]), "0.5 0.5 0.5");
    assert_eq!(
        format_numbers("{r255} {g255} {b255}", &[127.5, 127.5, 127.5]),
        "127 127 127"
    );
    assert_eq!(
        format_numbers("r:0o{r255:o} g:0x{g255:X} b:0x{b255:x}", &[127.5, 127.5, 127.5]),
        "r:0o177 g:0x7F b:0x7f"
    );
    // Lab of rgb(35, 144, 180)
    assert_eq!(
        format_numbers("{lab_l:.4} {lab_a:.0} {lab_b:.2}", &[55.6818, -17.339, -27.272]),
        "55.6818 -17 -27.27"
    );
    // HSV of rgb(120, 30, 80), scaled
    assert_eq!(
        format_numbers("{hsv_h360:d} {hsv_s100:X} {hsv_v100:x}", &[326.66666, 75., 47.058823]),
        "326 4B 2f"
    );
}

#[test]
fn formats_joined_write_joined() {
    let a = ColorFormat::parse("x={r255}").unwrap();
    let b = ColorFormat::parse(" y").unwrap();
    let va = vec![FieldValue::Skipped, FieldValue::Whole { negative: false, value: 9 }];
    let vb = vec![FieldValue::Skipped];
    let tokens = vec![
        FormatToken::Text("x=".to_string()),
        FormatToken::Color(field(ColorSymbol::Red255, None)),
        FormatToken::Text(" y".to_string()),
    ];
    let joined = ColorFormat::from(tokens);
    let vj = vec![FieldValue::Skipped, FieldValue::Whole { negative: false, value: 9 }, FieldValue::Skipped];
    assert_eq!(
        joined.format_color(&vj),
        a.format_color(&va) + &b.format_color(&vb)
    );
    let text = ColorFormat::from(vec![FormatToken::Text("{ plain".to_string())]);
    assert_eq!(text.format_color(&vec![FieldValue::Skipped]), "{ plain");
}
