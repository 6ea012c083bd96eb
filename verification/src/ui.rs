use vstd::prelude::*;
use vstd::string::StringExecFns;
use vstd::string::StringSliceAdditionalSpecFns;

verus! {

/// The tab shown in the central panel.
#[derive(Debug, Clone, Copy, PartialEq, Eq, Structural)]
pub enum CentralPanelTab {
    Picker,
    Palettes,
}

/// Whether a tab button is the selected one.
#[derive(Debug, Clone, Copy, PartialEq, Eq, Structural)]
pub enum Tab {
    Active,
    Inactive,
}

impl Tab {
    /// The color of the button's text, as red, green and blue.
    pub fn text_color(&self) -> (r: (u8, u8, u8))
        ensures
            r == (match self {
                Tab::Active => (229u8, 222u8, 214u8),
                Tab::Inactive => (142u8, 151u8, 162u8),
            }),
    {
        match self {
            Tab::Active => (229, 222, 214),
            Tab::Inactive => (142, 151, 162),
        }
    }

    /// The color of the button's background, as red, green and blue.
    pub fn bg_color(&self) -> (r: (u8, u8, u8))
        ensures
            r == (match self {
                Tab::Active => (49u8, 63u8, 78u8),
                Tab::Inactive => (22u8, 28u8, 35u8),
            }),
    {
        match self {
            Tab::Active => (49, 63, 78),
            Tab::Inactive => (22, 28, 35),
        }
    }
}

/// The role of a helper window on an X11 display, as the window manager hints name it.
#[derive(Debug, Clone, Copy, PartialEq, Eq, Structural)]
pub enum WindowType {
    Desktop,
    Dock,
    Toolbar,
    Menu,
    Utility,
    Splash,
    Dialog,
    Normal,
    Notification,
}

impl WindowType {
    pub open spec fn spec_wm_property(&self) -> &'static str {
        match self {
            WindowType::Desktop => "_NET_WM_WINDOW_TYPE_DESKTOP",
            WindowType::Dock => "_NET_WM_WINDOW_TYPE_DOCK",
            WindowType::Toolbar => "_NET_WM_WINDOW_TYPE_TOOLBAR",
            WindowType::Menu => "_NET_WM_WINDOW_TYPE_MENU",
            WindowType::Utility => "_NET_WM_WINDOW_TYPE_UTILITY",
            WindowType::Splash => "_NET_WM_WINDOW_TYPE_SPLASH",
            WindowType::Dialog => "_NET_WM_WINDOW_TYPE_DIALOG",
            WindowType::Normal => "_NET_WM_WINDOW_TYPE_NORMAL",
            WindowType::Notification => "_NET_WM_WINDOW_TYPE_NOTIFICATION",
        }
    }

    /// The name of the window manager property for this window type, as bytes.
    pub fn wm_property(&self) -> (r: &'static [u8])
        ensures
            r@ == self.spec_wm_property().spec_bytes(),
    {
        match self {
            WindowType::Desktop => "_NET_WM_WINDOW_TYPE_DESKTOP".as_bytes(),
            WindowType::Dock => "_NET_WM_WINDOW_TYPE_DOCK".as_bytes(),
            WindowType::Toolbar => "_NET_WM_WINDOW_TYPE_TOOLBAR".as_bytes(),
            WindowType::Menu => "_NET_WM_WINDOW_TYPE_MENU".as_bytes(),
            WindowType::Utility => "_NET_WM_WINDOW_TYPE_UTILITY".as_bytes(),
            WindowType::Splash => "_NET_WM_WINDOW_TYPE_SPLASH".as_bytes(),
            WindowType::Dialog => "_NET_WM_WINDOW_TYPE_DIALOG".as_bytes(),
            WindowType::Normal => "_NET_WM_WINDOW_TYPE_NORMAL".as_bytes(),
            WindowType::Notification => "_NET_WM_WINDOW_TYPE_NOTIFICATION".as_bytes(),
        }
    }
}

/// How a color is written out: hex, upper case hex, CSS `rgb(..)`, CSS `hsl(..)` with or
/// without a degree sign, or a custom format string.
#[derive(Debug, Clone, PartialEq, Eq)]
pub enum ColorDisplayFormat<'fmt> {
    Hex,
    HexUpercase,
    CssRgb,
    CssHsl { degree_symbol: bool },
    Custom(&'fmt str),
}

impl<'fmt> ColorDisplayFormat<'fmt> {
    /// The same format, but CSS `hsl(..)` without the degree sign.
    pub fn no_degree(self) -> (r: Self)
        ensures
            r == (match self {
                ColorDisplayFormat::CssHsl { .. } => ColorDisplayFormat::CssHsl { degree_symbol: false },
                fmt => fmt,
            }),
    {
        match self {
            ColorDisplayFormat::CssHsl { .. } => ColorDisplayFormat::CssHsl { degree_symbol: false },
            fmt => fmt,
        }
    }
}

} // verus!

verus! {

/// The kind of screen the application runs on, by the width of its area in points.
#[derive(Debug, Clone, Copy, PartialEq, Eq, Structural)]
pub enum ScreenKind {
    Phone,
    Tablet,
    Laptop,
    Desktop,
}

pub open spec fn spec_screen_kind(width: u32) -> ScreenKind {
    if width <= 480 {
        ScreenKind::Phone
    } else if width <= 768 {
        ScreenKind::Tablet
    } else if width <= 992 {
        ScreenKind::Laptop
    } else {
        ScreenKind::Desktop
    }
}

/// The kind of screen for an area `width` points wide (rounded): up to 480 a phone, up to 768 a
/// tablet, up to 992 a laptop, wider a desktop.
pub fn screen_kind(width: u32) -> (r: ScreenKind)
    ensures
        r == spec_screen_kind(width),
{
    if width <= 480 {
        ScreenKind::Phone
    } else if width <= 768 {
        ScreenKind::Tablet
    } else if width <= 992 {
        ScreenKind::Laptop
    } else {
        ScreenKind::Desktop
    }
}

} // verus!

verus! {

/// The longest palette name, in bytes, that the side panel shows whole.
pub const MAX_NAME_LEN: usize = 15;

proof fn lemma_encode_utf8_concat(a: Seq<char>, b: Seq<char>)
    ensures
        vstd::utf8::encode_utf8(a + b) == vstd::utf8::encode_utf8(a) + vstd::utf8::encode_utf8(b),
    decreases a.len(),
{
    if a.len() == 0 {
        assert(a + b =~= b);
        assert(vstd::utf8::encode_utf8(a) =~= Seq::<u8>::empty());
        assert(Seq::<u8>::empty() + vstd::utf8::encode_utf8(b) =~= vstd::utf8::encode_utf8(b));
    } else {
        assert((a + b).drop_first() =~= a.drop_first() + b);
        assert((a + b)[0] == a[0]);
        lemma_encode_utf8_concat(a.drop_first(), b);
        assert(vstd::utf8::encode_utf8(a + b) =~= vstd::utf8::encode_utf8(a) + vstd::utf8::encode_utf8(
            b,
        ));
    }
}

/// Shortens a palette name longer than `MAX_NAME_LEN` bytes to its first `MAX_NAME_LEN` bytes
/// followed by `...`; a shorter name is left as it is. The cut must fall between two characters.
pub fn format_palette_name(name: &mut String)
    requires
        vstd::utf8::encode_utf8(old(name)@).len() as usize > MAX_NAME_LEN ==> vstd::utf8::is_char_boundary(
            vstd::utf8::encode_utf8(old(name)@),
            MAX_NAME_LEN as int,
        ),
    ensures
        vstd::utf8::encode_utf8(old(name)@).len() as usize <= MAX_NAME_LEN ==> final(name)@ == old(name)@,
        vstd::utf8::encode_utf8(old(name)@).len() as usize > MAX_NAME_LEN ==> vstd::utf8::encode_utf8(
            final(name)@,
        ) == vstd::utf8::encode_utf8(old(name)@).take(MAX_NAME_LEN as int) + seq![46u8, 46u8, 46u8],
{
    if name.as_str().len() > MAX_NAME_LEN {
        let (head, _) = name.as_str().split_at(MAX_NAME_LEN);
        let mut s = head.to_owned();
        s.append("...");
        proof {
            reveal_strlit("...");
            lemma_encode_utf8_concat(head@, "..."@);
            let dots = "..."@;
            assert(dots =~= seq!['.', '.', '.']);
            assert(vstd::utf8::is_ascii_chars(dots));
            vstd::utf8::is_ascii_chars_encode_utf8(dots);
            assert(vstd::utf8::encode_utf8(dots)[0] == dots[0] as u8);
            assert(vstd::utf8::encode_utf8(dots)[1] == dots[1] as u8);
            assert(vstd::utf8::encode_utf8(dots)[2] == dots[2] as u8);
            assert(vstd::utf8::encode_utf8(dots) =~= seq![46u8, 46u8, 46u8]);
            assert(head.spec_bytes() == vstd::utf8::encode_utf8(head@));
            assert(s@ == head@ + dots);
            assert(vstd::utf8::encode_utf8(old(name)@).take(MAX_NAME_LEN as int) =~= head.spec_bytes());
        }
        *name = s;
    }
}

} // verus!
