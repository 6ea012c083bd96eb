use epick::color_space::{ChromaticAdaptationMethod, Illuminant, RgbWorkingSpace};
use epick::elapsed;
use epick::ui::{
    format_palette_name, screen_kind, ColorDisplayFormat, ScreenKind, Tab, WindowType,
};

#[test]
fn tab_colors() {
    assert_eq!(Tab::Active.text_color(), (229, 222, 214));
    assert_eq!(Tab::Inactive.text_color(), (142, 151, 162));
    assert_eq!(Tab::Active.bg_color(), (49, 63, 78));
    assert_eq!(Tab::Inactive.bg_color(), (22, 28, 35));
}

#[test]
fn window_type_properties() {
    assert_eq!(WindowType::Dock.wm_property(), b"_NET_WM_WINDOW_TYPE_DOCK");
    assert_eq!(
        WindowType::Notification.wm_property(),
        b"_NET_WM_WINDOW_TYPE_NOTIFICATION"
    );
}

#[test]
fn degree_sign_dropped() {
    assert_eq!(
        ColorDisplayFormat::CssHsl { degree_symbol: true }.no_degree(),
        ColorDisplayFormat::CssHsl { degree_symbol: false }
    );
    assert_eq!(ColorDisplayFormat::Hex.no_degree(), ColorDisplayFormat::Hex);
    assert_eq!(
        ColorDisplayFormat::Custom("{r}").no_degree(),
        ColorDisplayFormat::Custom("{r}")
    );
}

#[test]
fn screen_kinds() {
    assert_eq!(screen_kind(0), ScreenKind::Phone);
    assert_eq!(screen_kind(480), ScreenKind::Phone);
    assert_eq!(screen_kind(481), ScreenKind::Tablet);
    assert_eq!(screen_kind(768), ScreenKind::Tablet);
    assert_eq!(screen_kind(769), ScreenKind::Laptop);
    assert_eq!(screen_kind(992), ScreenKind::Laptop);
    assert_eq!(screen_kind(993), ScreenKind::Desktop);
}

#[test]
fn palette_names_shortened() {
    let mut name = "palette0".to_string();
    format_palette_name(&mut name);
    assert_eq!(name, "palette0");
    let mut name = "exactly15bytes!".to_string();
    format_palette_name(&mut name);
    assert_eq!(name, "exactly15bytes!");
    let mut name = "a rather long palette name".to_string();
    format_palette_name(&mut name);
    assert_eq!(name, "a rather long p...");
}

#[test]
fn color_space_names() {
    assert_eq!(RgbWorkingSpace::default(), RgbWorkingSpace::SRGB);
    assert_eq!(RgbWorkingSpace::WideGamut.as_ref(), "Adobe Wide Gamut RGB");
    assert_eq!(RgbWorkingSpace::CIE.reference_illuminant(), Illuminant::E);
    assert_eq!(RgbWorkingSpace::NTSC.reference_illuminant(), Illuminant::C);
    assert_eq!(RgbWorkingSpace::ProPhoto.reference_illuminant(), Illuminant::D50);
    assert_eq!(Illuminant::default(), Illuminant::D65);
    assert_eq!(Illuminant::F11.as_ref(), "F11");
    assert_eq!(ChromaticAdaptationMethod::default(), ChromaticAdaptationMethod::Bradford);
}

#[test]
fn seconds_elapsed() {
    assert_eq!(elapsed(100, 40), 60);
    assert_eq!(elapsed(7, 7), 0);
}
