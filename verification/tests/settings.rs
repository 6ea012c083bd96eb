use epick::color_space::{ChromaticAdaptationMethod, Illuminant, RgbWorkingSpace};
use epick::settings::{
    enabled, is_default_harmony, is_default_harmony_layout, is_false, is_true, name_valid,
    ColorHarmony, ColorSpaceSettings, DisplayFmtEnum, HarmonyLayout, HelpWindow, PaletteFormat,
    Settings, SettingsWindow,
};

#[test]
fn default_settings() {
    let s = Settings::default();
    assert_eq!(s.color_display_format, DisplayFmtEnum::Hex);
    assert!(s.custom_display_fmt_str.is_empty());
    assert!(s.custom_clipboard_fmt_str.is_empty());
    assert!(s.saved_color_formats.is_empty());
    assert_eq!(s.color_spaces, ColorSpaceSettings::default());
    assert!(s.color_spaces.rgb && s.color_spaces.cmyk && s.color_spaces.hsv && s.color_spaces.hsl);
    assert!(!s.color_spaces.luv && !s.color_spaces.lch_uv && !s.color_spaces.lab && !s.color_spaces.lch_ab);
    assert_eq!(s.rgb_working_space, RgbWorkingSpace::SRGB);
    assert_eq!(s.chromatic_adaptation_method, ChromaticAdaptationMethod::Bradford);
    assert_eq!(s.illuminant, Illuminant::D65);
    assert!(s.cache_colors);
    assert_eq!(s.color_harmony, ColorHarmony::Complementary);
    assert!(s.is_dark_mode);
    assert_eq!(s.harmony_layout, HarmonyLayout::Square);
}

#[test]
fn flags() {
    assert!(enabled());
    assert!(is_false(&false));
    assert!(!is_false(&true));
    assert!(is_true(&true));
    assert!(!is_true(&false));
    assert!(is_default_harmony(&ColorHarmony::Complementary));
    assert!(!is_default_harmony(&ColorHarmony::Square));
    assert!(is_default_harmony_layout(&HarmonyLayout::Square));
    assert!(!is_default_harmony_layout(&HarmonyLayout::Line));
}

#[test]
fn names() {
    assert_eq!(ColorHarmony::SplitComplementary.as_ref(), "split complementary");
    assert_eq!(ColorHarmony::Monochromatic.as_ref(), "monochromatic");
    assert_eq!(DisplayFmtEnum::HexUppercase.as_ref(), "hex uppercase");
    assert_eq!(DisplayFmtEnum::CssHsl.as_ref(), "css hsl");
    assert_eq!(HarmonyLayout::Stacked.as_ref(), "stacked");
    assert_eq!(PaletteFormat::Gimp.as_ref(), "GIMP (gpl)");
    assert_eq!(PaletteFormat::Text.as_ref(), "Hex list (txt)");
    assert_eq!(PaletteFormat::Gimp.extension(), "gpl");
    assert_eq!(PaletteFormat::Text.extension(), "txt");
    assert_eq!(DisplayFmtEnum::default(), DisplayFmtEnum::Hex);
    assert_eq!(HarmonyLayout::default(), HarmonyLayout::Square);
    assert_eq!(ColorHarmony::default(), ColorHarmony::Complementary);
}

#[test]
fn settings_window_errors_and_messages() {
    let mut w = SettingsWindow::default();
    assert!(!w.show);
    assert!(w.error.is_none() && w.message.is_none());
    w.set_message("saved".to_string());
    assert_eq!(w.message.as_deref(), Some("saved"));
    w.set_error("failed".to_string());
    assert_eq!(w.error.as_deref(), Some("failed"));
    assert!(w.message.is_none());
    w.set_message("again".to_string());
    assert!(w.error.is_none());
    w.clear_message();
    assert!(w.message.is_none());
    w.set_error("x".to_string());
    w.clear_error();
    assert!(w.error.is_none());
}

#[test]
fn help_window_toggles() {
    let mut h = HelpWindow::default();
    assert!(!h.is_open);
    h.toggle_window();
    assert!(h.is_open);
    h.toggle_window();
    assert!(!h.is_open);
}

#[test]
fn custom_format_names() {
    let existing = vec!["rgb".to_string(), "hsl".to_string()];
    assert!(name_valid("mine", &existing));
    assert!(!name_valid("", &existing));
    assert!(!name_valid("hsl", &existing));
    assert!(name_valid("hs", &existing));
    assert!(name_valid("x", &vec![]));
}

fn window_with_formats(formats: &[&str]) -> SettingsWindow {
    let mut w = SettingsWindow::default();
    w.settings.saved_color_formats = formats.iter().map(|f| f.to_string()).collect();
    w
}

#[test]
fn selecting_a_saved_format() {
    let mut w = window_with_formats(&["{r}", "{g}"]);
    w.select_saved_format("{g}".to_string(), false);
    assert_eq!(w.selected_display_fmt, "{g}");
    assert_eq!(w.settings.custom_display_fmt_str, "{g}");
    assert_eq!(w.selected_clipboard_fmt, "");
    w.select_saved_format("{r}".to_string(), true);
    assert_eq!(w.selected_clipboard_fmt, "{r}");
    assert_eq!(w.settings.custom_clipboard_fmt_str, "{r}");
    assert_eq!(w.selected_display_fmt, "{g}");
}

#[test]
fn deleting_the_selected_format() {
    let mut w = window_with_formats(&["a", "b", "c"]);
    w.select_saved_format("b".to_string(), false);
    w.delete_selected_format(false);
    assert_eq!(w.settings.saved_color_formats, vec!["a", "c"]);
    assert_eq!(w.selected_display_fmt, "a");
    assert_eq!(w.settings.custom_display_fmt_str, "a");
    // the first one: the new first one is selected
    w.delete_selected_format(false);
    assert_eq!(w.settings.saved_color_formats, vec!["c"]);
    assert_eq!(w.selected_display_fmt, "c");
    // the last one: nothing left to select
    w.delete_selected_format(false);
    assert!(w.settings.saved_color_formats.is_empty());
    assert_eq!(w.selected_display_fmt, "c");
    // a selection that is not saved changes nothing
    let mut w = window_with_formats(&["a"]);
    w.select_saved_format("z".to_string(), true);
    w.delete_selected_format(true);
    assert_eq!(w.settings.saved_color_formats, vec!["a"]);
    assert_eq!(w.selected_clipboard_fmt, "z");
}

#[test]
fn saving_the_edited_format() {
    let mut w = window_with_formats(&["a"]);
    w.settings.custom_clipboard_fmt_str = "{r255}".to_string();
    w.save_current_format(true);
    assert_eq!(w.settings.saved_color_formats, vec!["a", "{r255}"]);
    w.save_current_format(false);
    assert_eq!(w.settings.saved_color_formats, vec!["a", "{r255}", ""]);
}

#[test]
fn closing_the_settings_window() {
    let mut w = SettingsWindow::default();
    w.show = true;
    w.set_error("bad".to_string());
    w.close();
    assert!(!w.show);
    assert!(w.error.is_none() && w.message.is_none());
}
