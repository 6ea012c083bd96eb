use vstd::prelude::*;

use crate::color_space::{ChromaticAdaptationMethod, Illuminant, RgbWorkingSpace};

verus! {

/// A scheme of colors that go together with a base color.
#[derive(Debug, Clone, Copy, PartialEq, Eq, Structural)]
pub enum ColorHarmony {
    Complementary,
    Triadic,
    Tetradic,
    Analogous,
    SplitComplementary,
    Square,
    Monochromatic,
}

impl Default for ColorHarmony {
    fn default() -> (r: Self)
        ensures
            r == ColorHarmony::Complementary,
    {
        ColorHarmony::Complementary
    }
}

impl ColorHarmony {
    pub open spec fn spec_name(&self) -> &'static str {
        match self {
            ColorHarmony::Complementary => "complementary",
            ColorHarmony::Triadic => "triadic",
            ColorHarmony::Tetradic => "tetradic",
            ColorHarmony::Analogous => "analogous",
            ColorHarmony::SplitComplementary => "split complementary",
            ColorHarmony::Square => "square",
            ColorHarmony::Monochromatic => "monochromatic",
        }
    }

    /// The name under which the harmony is shown.
    pub fn as_ref(&self) -> (r: &'static str)
        ensures
            r@ == self.spec_name()@,
    {
        match self {
            ColorHarmony::Complementary => "complementary",
            ColorHarmony::Triadic => "triadic",
            ColorHarmony::Tetradic => "tetradic",
            ColorHarmony::Analogous => "analogous",
            ColorHarmony::SplitComplementary => "split complementary",
            ColorHarmony::Square => "square",
            ColorHarmony::Monochromatic => "monochromatic",
        }
    }

}

/// The way colors are written out, as stored in the settings.
#[derive(Debug, Clone, Copy, PartialEq, Eq, Structural)]
pub enum DisplayFmtEnum {
    Hex,
    HexUppercase,
    CssRgb,
    CssHsl,
    Custom,
}

impl Default for DisplayFmtEnum {
    fn default() -> (r: Self)
        ensures
            r == DisplayFmtEnum::Hex,
    {
        DisplayFmtEnum::Hex
    }
}

impl DisplayFmtEnum {
    pub open spec fn spec_name(&self) -> &'static str {
        match self {
            DisplayFmtEnum::Hex => "hex",
            DisplayFmtEnum::HexUppercase => "hex uppercase",
            DisplayFmtEnum::CssRgb => "css rgb",
            DisplayFmtEnum::CssHsl => "css hsl",
            DisplayFmtEnum::Custom => "custom",
        }
    }

    /// The name under which the format is shown.
    pub fn as_ref(&self) -> (r: &'static str)
        ensures
            r@ == self.spec_name()@,
    {
        match self {
            DisplayFmtEnum::Hex => "hex",
            DisplayFmtEnum::HexUppercase => "hex uppercase",
            DisplayFmtEnum::CssRgb => "css rgb",
            DisplayFmtEnum::CssHsl => "css hsl",
            DisplayFmtEnum::Custom => "custom",
        }
    }

}

/// How the colors of a harmony are laid out: a square, a stack or a line.
#[derive(Debug, Clone, Copy, PartialEq, Eq, Structural)]
pub enum HarmonyLayout {
    Square,
    Stacked,
    Line,
}

impl Default for HarmonyLayout {
    fn default() -> (r: Self)
        ensures
            r == HarmonyLayout::Square,
    {
        HarmonyLayout::Square
    }
}

impl HarmonyLayout {
    pub open spec fn spec_name(&self) -> &'static str {
        match self {
            HarmonyLayout::Square => "square",
            HarmonyLayout::Stacked => "stacked",
            HarmonyLayout::Line => "line",
        }
    }

    /// The name under which the layout is shown.
    pub fn as_ref(&self) -> (r: &'static str)
        ensures
            r@ == self.spec_name()@,
    {
        match self {
            HarmonyLayout::Square => "square",
            HarmonyLayout::Stacked => "stacked",
            HarmonyLayout::Line => "line",
        }
    }

}

/// A file format to export a palette in.
#[derive(Debug, Clone, Copy, PartialEq, Eq, Structural)]
pub enum PaletteFormat {
    Gimp,
    Text,
}

impl PaletteFormat {
    pub open spec fn spec_extension(&self) -> &'static str {
        match self {
            PaletteFormat::Gimp => "gpl",
            PaletteFormat::Text => "txt",
        }
    }

    /// The file name extension of the format.
    pub fn extension(&self) -> (r: &'static str)
        ensures
            r@ == self.spec_extension()@,
    {
        match self {
            PaletteFormat::Gimp => "gpl",
            PaletteFormat::Text => "txt",
        }
    }

    pub open spec fn spec_name(&self) -> &'static str {
        match self {
            PaletteFormat::Gimp => "GIMP (gpl)",
            PaletteFormat::Text => "Hex list (txt)",
        }
    }

    /// The name under which the format is shown.
    pub fn as_ref(&self) -> (r: &'static str)
        ensures
            r@ == self.spec_name()@,
    {
        match self {
            PaletteFormat::Gimp => "GIMP (gpl)",
            PaletteFormat::Text => "Hex list (txt)",
        }
    }

}

} // verus!

verus! {

/// The value of a setting that is on unless said otherwise.
pub fn enabled() -> (r: bool)
    ensures
        r,
{
    true
}

/// Whether a flag is off; such a flag is left out when the settings are written.
pub fn is_false(it: &bool) -> (r: bool)
    ensures
        r == !*it,
{
    !*it
}

/// Whether a flag is on; such a flag is left out when the settings are written.
pub fn is_true(it: &bool) -> (r: bool)
    ensures
        r == *it,
{
    *it
}

pub fn is_default_harmony_layout(it: &HarmonyLayout) -> (r: bool)
    ensures
        r == (*it == HarmonyLayout::Square),
{
    *it == HarmonyLayout::Square
}

pub fn is_default_harmony(it: &ColorHarmony) -> (r: bool)
    ensures
        r == (*it == ColorHarmony::Complementary),
{
    *it == ColorHarmony::Complementary
}

/// Which color spaces the picker shows sliders for.
#[derive(Debug, Clone, Copy, PartialEq, Eq, Structural)]
pub struct ColorSpaceSettings {
    pub rgb: bool,
    pub cmyk: bool,
    pub hsv: bool,
    pub hsl: bool,
    pub luv: bool,
    pub lch_uv: bool,
    pub lab: bool,
    pub lch_ab: bool,
}

impl Default for ColorSpaceSettings {
    /// RGB, CMYK, HSV and HSL on; the CIE spaces off.
    fn default() -> (r: Self)
        ensures
            r == (ColorSpaceSettings {
                rgb: true,
                cmyk: true,
                hsv: true,
                hsl: true,
                luv: false,
                lch_uv: false,
                lab: false,
                lch_ab: false,
            }),
    {
        ColorSpaceSettings {
            rgb: true,
            cmyk: true,
            hsv: true,
            hsl: true,
            luv: false,
            lch_uv: false,
            lab: false,
            lch_ab: false,
        }
    }
}

/// The user's settings.
#[derive(Debug)]
pub struct Settings {
    pub color_display_format: DisplayFmtEnum,
    pub custom_display_fmt_str: String,
    pub custom_clipboard_fmt_str: String,
    pub saved_color_formats: Vec<String>,
    pub color_spaces: ColorSpaceSettings,
    pub rgb_working_space: RgbWorkingSpace,
    pub chromatic_adaptation_method: ChromaticAdaptationMethod,
    pub illuminant: Illuminant,
    pub cache_colors: bool,
    pub color_harmony: ColorHarmony,
    pub is_dark_mode: bool,
    pub harmony_layout: HarmonyLayout,
}

impl Settings {
    /// The settings of a first start: hex display, no custom formats, the default color spaces,
    /// the SRGB working space with its own white point, Bradford adaptation, color caching,
    /// complementary harmony, dark mode and the square layout.
    pub open spec fn is_default(&self) -> bool {
        &&& self.color_display_format == DisplayFmtEnum::Hex
        &&& self.custom_display_fmt_str@.len() == 0
        &&& self.custom_clipboard_fmt_str@.len() == 0
        &&& self.saved_color_formats@.len() == 0
        &&& self.color_spaces == (ColorSpaceSettings {
            rgb: true,
            cmyk: true,
            hsv: true,
            hsl: true,
            luv: false,
            lch_uv: false,
            lab: false,
            lch_ab: false,
        })
        &&& self.rgb_working_space == RgbWorkingSpace::SRGB
        &&& self.chromatic_adaptation_method == ChromaticAdaptationMethod::Bradford
        &&& self.illuminant == RgbWorkingSpace::SRGB.spec_reference_illuminant()
        &&& self.cache_colors
        &&& self.color_harmony == ColorHarmony::Complementary
        &&& self.is_dark_mode
        &&& self.harmony_layout == HarmonyLayout::Square
    }
}

impl Default for Settings {
    fn default() -> (r: Self)
        ensures
            r.is_default(),
    {
        let ws = RgbWorkingSpace::default();
        Settings {
            color_display_format: DisplayFmtEnum::default(),
            custom_display_fmt_str: String::new(),
            custom_clipboard_fmt_str: String::new(),
            saved_color_formats: Vec::new(),
            color_spaces: ColorSpaceSettings::default(),
            rgb_working_space: ws,
            chromatic_adaptation_method: ChromaticAdaptationMethod::default(),
            illuminant: ws.reference_illuminant(),
            cache_colors: true,
            color_harmony: ColorHarmony::default(),
            is_dark_mode: true,
            harmony_layout: HarmonyLayout::default(),
        }
    }
}

/// The state of the settings window: whether it is shown, the last error or message, and the
/// settings being edited.
#[derive(Debug)]
pub struct SettingsWindow {
    pub show: bool,
    pub error: Option<String>,
    pub message: Option<String>,
    pub settings: Settings,
    pub selected_display_fmt: String,
    pub selected_clipboard_fmt: String,
}

impl SettingsWindow {
    /// Shows an error in place of any message.
    pub fn set_error(&mut self, error: String)
        ensures
            final(self).error == Some(error),
            final(self).message is None,
            final(self).show == old(self).show,
            final(self).settings == old(self).settings,
            final(self).selected_display_fmt == old(self).selected_display_fmt,
            final(self).selected_clipboard_fmt == old(self).selected_clipboard_fmt,
    {
        self.clear_message();
        self.error = Some(error);
    }

    pub fn clear_error(&mut self)
        ensures
            final(self).error is None,
            final(self).message == old(self).message,
            final(self).show == old(self).show,
            final(self).settings == old(self).settings,
            final(self).selected_display_fmt == old(self).selected_display_fmt,
            final(self).selected_clipboard_fmt == old(self).selected_clipboard_fmt,
    {
        self.error = None;
    }

    /// Shows a message in place of any error.
    pub fn set_message(&mut self, message: String)
        ensures
            final(self).message == Some(message),
            final(self).error is None,
            final(self).show == old(self).show,
            final(self).settings == old(self).settings,
            final(self).selected_display_fmt == old(self).selected_display_fmt,
            final(self).selected_clipboard_fmt == old(self).selected_clipboard_fmt,
    {
        self.clear_error();
        self.message = Some(message);
    }

    pub fn clear_message(&mut self)
        ensures
            final(self).message is None,
            final(self).error == old(self).error,
            final(self).show == old(self).show,
            final(self).settings == old(self).settings,
            final(self).selected_display_fmt == old(self).selected_display_fmt,
            final(self).selected_clipboard_fmt == old(self).selected_clipboard_fmt,
    {
        self.message = None;
    }
}

impl Settings {
    /// All settings but the custom formats and the saved formats are the same.
    pub open spec fn same_except_formats(&self, other: &Settings) -> bool {
        &&& self.color_display_format == other.color_display_format
        &&& self.color_spaces == other.color_spaces
        &&& self.rgb_working_space == other.rgb_working_space
        &&& self.chromatic_adaptation_method == other.chromatic_adaptation_method
        &&& self.illuminant == other.illuminant
        &&& self.cache_colors == other.cache_colors
        &&& self.color_harmony == other.color_harmony
        &&& self.is_dark_mode == other.is_dark_mode
        &&& self.harmony_layout == other.harmony_layout
    }
}

/// The position of the first of `ss` equal to `s`.
pub open spec fn first_index_of_text(ss: Seq<Seq<char>>, s: Seq<char>) -> Option<int> {
    if exists|i: int| 0 <= i < ss.len() && ss[i] == s {
        Some(choose|i: int| 0 <= i < ss.len() && ss[i] == s && forall|j: int| 0 <= j < i ==> ss[j] != s)
    } else {
        None
    }
}

proof fn lemma_first_index_of_text(ss: Seq<Seq<char>>, s: Seq<char>, i: int)
    requires
        0 <= i < ss.len(),
        ss[i] == s,
        forall|j: int| 0 <= j < i ==> ss[j] != s,
    ensures
        first_index_of_text(ss, s) == Some(i),
{
    let k = choose|k: int| 0 <= k < ss.len() && ss[k] == s && forall|j: int| 0 <= j < k ==> ss[j] != s;
    assert(0 <= k < ss.len() && ss[k] == s && forall|j: int| 0 <= j < k ==> ss[j] != s);
    if k < i {
        assert(ss[k] != s);
    }
    if i < k {
        assert(ss[i] != s);
    }
}

impl SettingsWindow {
    /// The selected saved format: of the clipboard format when `clipboard`, else of the display
    /// format.
    pub open spec fn spec_selected(&self, clipboard: bool) -> Seq<char> {
        if clipboard {
            self.selected_clipboard_fmt@
        } else {
            self.selected_display_fmt@
        }
    }

    /// The format string being edited: the clipboard format when `clipboard`, else the display
    /// format.
    pub open spec fn spec_editable(&self, clipboard: bool) -> Seq<char> {
        if clipboard {
            self.settings.custom_clipboard_fmt_str@
        } else {
            self.settings.custom_display_fmt_str@
        }
    }

    /// The saved format strings.
    pub open spec fn spec_saved(&self) -> Seq<Seq<char>> {
        self.settings.saved_color_formats@.map_values(|f: String| f@)
    }

    /// All but the saved formats, and the selected and edited format of the side that
    /// `clipboard` names, are as in `other`.
    pub open spec fn keeps_others(&self, other: &SettingsWindow, clipboard: bool) -> bool {
        &&& self.show == other.show
        &&& self.error == other.error
        &&& self.message == other.message
        &&& self.settings.same_except_formats(&other.settings)
        &&& self.spec_selected(!clipboard) == other.spec_selected(!clipboard)
        &&& self.spec_editable(!clipboard) == other.spec_editable(!clipboard)
    }

    /// Closes the window and drops its error and message.
    pub fn close(&mut self)
        ensures
            !final(self).show,
            final(self).error is None,
            final(self).message is None,
            final(self).settings == old(self).settings,
            final(self).selected_display_fmt == old(self).selected_display_fmt,
            final(self).selected_clipboard_fmt == old(self).selected_clipboard_fmt,
    {
        self.show = false;
        self.clear_error();
        self.clear_message();
    }

    fn set_format(&mut self, fmt: &String, clipboard: bool)
        ensures
            final(self).keeps_others(old(self), clipboard),
            final(self).spec_selected(clipboard) == fmt@,
            final(self).spec_editable(clipboard) == fmt@,
            final(self).spec_saved() == old(self).spec_saved(),
    {
        if clipboard {
            self.selected_clipboard_fmt = fmt.clone();
            self.settings.custom_clipboard_fmt_str = fmt.clone();
        } else {
            self.selected_display_fmt = fmt.clone();
            self.settings.custom_display_fmt_str = fmt.clone();
        }
    }

    /// Picks a saved format: it becomes both the selected and the edited format of the
    /// clipboard side when `clipboard`, else of the display side.
    pub fn select_saved_format(&mut self, fmt: String, clipboard: bool)
        ensures
            final(self).keeps_others(old(self), clipboard),
            final(self).spec_selected(clipboard) == fmt@,
            final(self).spec_editable(clipboard) == fmt@,
            final(self).spec_saved() == old(self).spec_saved(),
    {
        self.set_format(&fmt, clipboard);
    }

    /// Deletes the first saved format equal to the selected one. The format before it, or the
    /// first one if it was first, becomes selected and edited; with no saved format left, or
    /// with the selected format not saved, nothing else changes.
    pub fn delete_selected_format(&mut self, clipboard: bool)
        ensures
            final(self).keeps_others(old(self), clipboard),
            match first_index_of_text(old(self).spec_saved(), old(self).spec_selected(clipboard)) {
                None => {
                    &&& final(self).spec_saved() == old(self).spec_saved()
                    &&& final(self).spec_selected(clipboard) == old(self).spec_selected(clipboard)
                    &&& final(self).spec_editable(clipboard) == old(self).spec_editable(clipboard)
                },
                Some(p) => {
                    let left = old(self).spec_saved().remove(p);
                    &&& final(self).spec_saved() == left
                    &&& left.len() > 0 ==> final(self).spec_selected(clipboard) == left[
                        if p > 0 {
                            p - 1
                        } else {
                            0
                        }
                    ] && final(self).spec_editable(clipboard) == left[if p > 0 {
                        p - 1
                    } else {
                        0
                    }]
                    &&& left.len() == 0 ==> final(self).spec_selected(clipboard) == old(
                        self,
                    ).spec_selected(clipboard) && final(self).spec_editable(clipboard) == old(
                        self,
                    ).spec_editable(clipboard)
                },
            },
    {
        let ghost saved = self.spec_saved();
        let ghost sel = self.spec_selected(clipboard);
        let mut i: usize = 0;
        let n = self.settings.saved_color_formats.len();
        while i < n
            invariant
                i <= n,
                n == self.settings.saved_color_formats.len(),
                *self == *old(self),
                saved == self.spec_saved(),
                sel == self.spec_selected(clipboard),
                forall|j: int| 0 <= j < i ==> saved[j] != sel,
            decreases n - i,
        {
            let found = if clipboard {
                crate::text::str_equals(
                    self.settings.saved_color_formats[i].as_str(),
                    self.selected_clipboard_fmt.as_str(),
                )
            } else {
                crate::text::str_equals(
                    self.settings.saved_color_formats[i].as_str(),
                    self.selected_display_fmt.as_str(),
                )
            };
            assert(saved[i as int] == self.settings.saved_color_formats@[i as int]@);
            if found {
                proof {
                    lemma_first_index_of_text(saved, sel, i as int);
                }
                let _removed = self.settings.saved_color_formats.remove(i);
                let ghost left = saved.remove(i as int);
                assert(self.spec_saved() =~= left);
                if i > 0 {
                    let fmt = self.settings.saved_color_formats[i - 1].clone();
                    self.set_format(&fmt, clipboard);
                } else if self.settings.saved_color_formats.len() > 0 {
                    let fmt = self.settings.saved_color_formats[0].clone();
                    self.set_format(&fmt, clipboard);
                }
                return;
            }
            i += 1;
        }
    }

    /// Appends the edited format of the clipboard side when `clipboard`, else of the display
    /// side, to the saved formats.
    pub fn save_current_format(&mut self, clipboard: bool)
        ensures
            final(self).keeps_others(old(self), clipboard),
            final(self).spec_saved() == old(self).spec_saved().push(old(self).spec_editable(clipboard)),
            final(self).spec_selected(clipboard) == old(self).spec_selected(clipboard),
            final(self).spec_editable(clipboard) == old(self).spec_editable(clipboard),
    {
        let fmt = if clipboard {
            self.settings.custom_clipboard_fmt_str.clone()
        } else {
            self.settings.custom_display_fmt_str.clone()
        };
        let ghost before = self.spec_saved();
        let ghost fv = fmt@;
        self.settings.saved_color_formats.push(fmt);
        assert(self.spec_saved() =~= before.push(fv));
    }
}

impl Default for SettingsWindow {
    fn default() -> (r: Self)
        ensures
            !r.show,
            r.error is None,
            r.message is None,
            r.settings.is_default(),
            r.selected_display_fmt@.len() == 0,
            r.selected_clipboard_fmt@.len() == 0,
    {
        SettingsWindow {
            show: false,
            error: None,
            message: None,
            settings: Settings::default(),
            selected_display_fmt: String::new(),
            selected_clipboard_fmt: String::new(),
        }
    }
}

/// The state of the help window.
#[derive(Debug, Default)]
pub struct HelpWindow {
    pub is_open: bool,
}

impl HelpWindow {
    /// Opens the window if closed, closes it if open.
    pub fn toggle_window(&mut self)
        ensures
            final(self).is_open == !old(self).is_open,
    {
        self.is_open = !self.is_open;
    }
}

/// The state of the window that edits the saved custom formats.
#[derive(Debug, Default)]
pub struct CustomFormatsWindow {
    pub show: bool,
    pub new_name: String,
    pub edit_key: String,
    pub new_key: String,
    pub adding_new: bool,
    pub highlighted_key: String,
}

/// A name for a new custom format is valid when it is not empty and no saved format has it.
pub fn name_valid(name: &str, existing_names: &Vec<String>) -> (r: bool)
    ensures
        r == (name@.len() > 0 && forall|i: int|
            0 <= i < existing_names@.len() ==> existing_names@[i]@ != name@),
{
    if name.is_empty() {
        return false;
    }
    let mut i: usize = 0;
    while i < existing_names.len()
        invariant
            i <= existing_names.len(),
            forall|j: int| 0 <= j < i ==> existing_names@[j]@ != name@,
        decreases existing_names.len() - i,
    {
        if crate::text::str_equals(existing_names[i].as_str(), name) {
            return false;
        }
        i += 1;
    }
    true
}

} // verus!
