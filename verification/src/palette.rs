use vstd::prelude::*;
use vstd::std_specs::cmp::PartialEqSpecImpl;
use vstd::std_specs::iter::IteratorSpec;

use crate::color_space::{Illuminant, RgbWorkingSpace};

verus! {

/// The color model in which a color was picked.
#[derive(Debug, Clone, Copy, PartialEq, Eq, Structural)]
pub enum ColorModel {
    Rgb,
    Cmyk,
    Hsv,
    Hsl,
    Xyz,
    XyY,
    Luv,
    LchUV,
    Lab,
    LchAB,
    Color32,
}

/// A color as the values that identify it: its model, up to four channels as stored (the bit
/// patterns of the floating point channels, or the four bytes of an 8-bit color) and, for the
/// CIE models, its working space and reference white. Colors of the other models carry a fixed
/// working space and white.
#[derive(Debug, Clone, Copy)]
pub struct ColorCode {
    pub model: ColorModel,
    pub c0: u32,
    pub c1: u32,
    pub c2: u32,
    pub c3: u32,
    pub working_space: RgbWorkingSpace,
    pub illuminant: Illuminant,
}

/// Whether the bits of an `f32` are a NaN: all exponent bits set and a fraction that is not
/// zero.
pub open spec fn is_nan_bits(a: u32) -> bool {
    a & 0x7f80_0000u32 == 0x7f80_0000u32 && a & 0x007f_ffffu32 != 0
}

/// Whether two `f32` values, given by their bits, compare equal: neither is a NaN, and they
/// have the same bits or are both zero (`-0.0 == 0.0`).
pub open spec fn float_bits_eq(a: u32, b: u32) -> bool {
    &&& !is_nan_bits(a)
    &&& !is_nan_bits(b)
    &&& (a == b || (a & 0x7fff_ffffu32 == 0 && b & 0x7fff_ffffu32 == 0))
}

/// Whether two codes stand for equal colors: the same model, working space and white, and
/// equal channels. The channels of an 8-bit color are bytes and compare as such; the others
/// are `f32` values and compare as `f32` values do (three of them, four for CMYK).
pub open spec fn same_color(a: ColorCode, b: ColorCode) -> bool {
    &&& a.model == b.model
    &&& a.working_space == b.working_space
    &&& a.illuminant == b.illuminant
    &&& if a.model == ColorModel::Color32 {
        a.c0 == b.c0 && a.c1 == b.c1 && a.c2 == b.c2 && a.c3 == b.c3
    } else {
        &&& float_bits_eq(a.c0, b.c0)
        &&& float_bits_eq(a.c1, b.c1)
        &&& float_bits_eq(a.c2, b.c2)
        &&& if a.model == ColorModel::Cmyk {
            float_bits_eq(a.c3, b.c3)
        } else {
            a.c3 == b.c3
        }
    }
}

fn float_bits_equal(a: u32, b: u32) -> (r: bool)
    ensures
        r == float_bits_eq(a, b),
{
    let a_nan = a & 0x7f80_0000u32 == 0x7f80_0000u32 && a & 0x007f_ffffu32 != 0;
    let b_nan = b & 0x7f80_0000u32 == 0x7f80_0000u32 && b & 0x007f_ffffu32 != 0;
    !a_nan && !b_nan && (a == b || (a & 0x7fff_ffffu32 == 0 && b & 0x7fff_ffffu32 == 0))
}

impl PartialEq for ColorCode {
    fn eq(&self, other: &Self) -> (r: bool) {
        if self.model != other.model || self.working_space != other.working_space
            || self.illuminant != other.illuminant {
            return false;
        }
        match self.model {
            ColorModel::Color32 => self.c0 == other.c0 && self.c1 == other.c1 && self.c2 == other.c2
                && self.c3 == other.c3,
            ColorModel::Cmyk => float_bits_equal(self.c0, other.c0) && float_bits_equal(
                self.c1,
                other.c1,
            ) && float_bits_equal(self.c2, other.c2) && float_bits_equal(self.c3, other.c3),
            _ => float_bits_equal(self.c0, other.c0) && float_bits_equal(self.c1, other.c1)
                && float_bits_equal(self.c2, other.c2) && self.c3 == other.c3,
        }
    }
}

impl PartialEqSpecImpl for ColorCode {
    open spec fn obeys_eq_spec() -> bool {
        true
    }

    open spec fn eq_spec(&self, other: &Self) -> bool {
        same_color(*self, *other)
    }
}

/// Whether two lists of colors have equal colors at each position.
pub open spec fn same_colors(a: Seq<ColorCode>, b: Seq<ColorCode>) -> bool {
    a.len() == b.len() && forall|i: int| 0 <= i < a.len() ==> same_color(#[trigger] a[i], b[i])
}

/// Whether `color` occurs in `colors`.
pub open spec fn has_color(colors: Seq<ColorCode>, color: ColorCode) -> bool {
    exists|i: int| 0 <= i < colors.len() && same_color(colors[i], color)
}

/// The position of the first occurrence of `color` in `colors`.
pub open spec fn first_index_of(colors: Seq<ColorCode>, color: ColorCode) -> Option<int> {
    if has_color(colors, color) {
        Some(
            choose|i: int|
                0 <= i < colors.len() && same_color(colors[i], color) && forall|j: int|
                    0 <= j < i ==> !same_color(colors[j], color),
        )
    } else {
        None
    }
}

/// No color occurs twice in `colors`.
pub open spec fn colors_distinct(colors: Seq<ColorCode>) -> bool {
    forall|i: int, j: int| 0 <= i < j < colors.len() ==> !same_color(colors[i], colors[j])
}

/// The colors after adding `color`: unchanged if it is there, else with it at the end.
pub open spec fn after_add(colors: Seq<ColorCode>, color: ColorCode) -> Seq<ColorCode> {
    if has_color(colors, color) {
        colors
    } else {
        colors.push(color)
    }
}

/// The colors after inserting `color` at position `i`: unchanged if it is there.
pub open spec fn after_insert(colors: Seq<ColorCode>, i: int, color: ColorCode) -> Seq<ColorCode> {
    if has_color(colors, color) {
        colors
    } else {
        colors.insert(i, color)
    }
}

/// Position of the first occurrence of `color` in `colors`, searched by a loop.
fn position_of(colors: &Vec<ColorCode>, color: ColorCode) -> (r: Option<usize>)
    ensures
        match r {
            Some(i) => i < colors@.len() && same_color(colors@[i as int], color) && forall|j: int|
                0 <= j < i ==> !same_color(colors@[j], color),
            None => !has_color(colors@, color),
        },
{
    let mut i: usize = 0;
    while i < colors.len()
        invariant
            i <= colors.len(),
            forall|j: int| 0 <= j < i ==> !same_color(colors@[j], color),
        decreases colors.len() - i,
    {
        if colors[i] == color {
            return Some(i);
        }
        i += 1;
    }
    None
}

proof fn lemma_first_index_of(colors: Seq<ColorCode>, color: ColorCode, i: int)
    requires
        0 <= i < colors.len(),
        same_color(colors[i], color),
        forall|j: int| 0 <= j < i ==> !same_color(colors[j], color),
    ensures
        first_index_of(colors, color) == Some(i),
{
    let k = choose|k: int|
        0 <= k < colors.len() && same_color(colors[k], color) && forall|j: int| 0 <= j < k ==> !same_color(colors[j], color);
    assert(0 <= k < colors.len() && same_color(colors[k], color) && forall|j: int|
        0 <= j < k ==> !same_color(colors[j], color));
    if k < i {
        assert(!same_color(colors[k], color));
    }
    if i < k {
        assert(!same_color(colors[i], color));
    }
}

/// An ordered list of colors in which no color occurs twice when built with `add` and `insert`.
#[derive(Debug, Clone, Default)]
pub struct Palette(Vec<ColorCode>);

impl View for Palette {
    type V = Seq<ColorCode>;

    closed spec fn view(&self) -> Seq<ColorCode> {
        self.0@
    }
}

impl Palette {
    /// A palette with the given colors, in order.
    pub fn from_colors(colors: Vec<ColorCode>) -> (r: Palette)
        ensures
            r@ == colors@,
    {
        Palette(colors)
    }

    /// An iterator over the colors, in order.
    pub fn iter(&self) -> (r: std::slice::Iter<'_, ColorCode>)
        ensures
            r.remaining().map_values(|c: &ColorCode| *c) == self@,
    {
        let it = self.0.iter();
        assert(it.remaining().map_values(|c: &ColorCode| *c) =~= self.0@);
        it
    }

    pub fn len(&self) -> (r: usize)
        ensures
            r == self@.len(),
    {
        self.0.len()
    }

    /// Adds the color at the end unless the palette has it already; tells whether it added it.
    pub fn add(&mut self, color: ColorCode) -> (r: bool)
        ensures
            r == !has_color(old(self)@, color),
            final(self)@ == after_add(old(self)@, color),
    {
        match position_of(&self.0, color) {
            Some(_) => false,
            None => {
                self.0.push(color);
                true
            },
        }
    }

    /// Inserts the color at position `i` unless the palette has it already.
    pub fn insert(&mut self, i: usize, color: ColorCode)
        requires
            i <= old(self)@.len() || has_color(old(self)@, color),
        ensures
            final(self)@ == after_insert(old(self)@, i as int, color),
    {
        if position_of(&self.0, color).is_none() {
            self.0.insert(i, color);
        }
    }

    /// Removes the first occurrence of the color and gives it back, or gives none if the
    /// palette does not have it.
    pub fn remove(&mut self, color: &ColorCode) -> (r: Option<ColorCode>)
        ensures
            match first_index_of(old(self)@, *color) {
                Some(i) => r == Some(old(self)@[i]) && final(self)@ == old(self)@.remove(i),
                None => r is None && final(self)@ == old(self)@,
            },
    {
        match position_of(&self.0, *color) {
            Some(i) => {
                proof {
                    lemma_first_index_of(self.0@, *color, i as int);
                }
                Some(self.0.remove(i))
            },
            None => None,
        }
    }

    /// Removes the color at position `i` and gives it back, or gives none if there is none.
    pub fn remove_pos(&mut self, i: usize) -> (r: Option<ColorCode>)
        ensures
            i < old(self)@.len() ==> r == Some(old(self)@[i as int]) && final(self)@ == old(
                self,
            )@.remove(i as int),
            i >= old(self)@.len() ==> r is None && final(self)@ == old(self)@,
    {
        if i < self.0.len() {
            Some(self.0.remove(i))
        } else {
            None
        }
    }

    pub fn clear(&mut self)
        ensures
            final(self)@.len() == 0,
    {
        self.0.clear();
    }

    /// Exchanges the colors at positions `a` and `b`.
    pub fn swap(&mut self, a: usize, b: usize)
        requires
            a < old(self)@.len(),
            b < old(self)@.len(),
        ensures
            final(self)@ == old(self)@.update(a as int, old(self)@[b as int]).update(
                b as int,
                old(self)@[a as int],
            ),
    {
        crate::text::swap_elements(&mut self.0, a, b);
    }

    pub fn is_empty(&self) -> (r: bool)
        ensures
            r == (self@.len() == 0),
    {
        self.0.len() == 0
    }
}

impl PartialEq for Palette {
    fn eq(&self, other: &Self) -> (r: bool) {
        if self.0.len() != other.0.len() {
            return false;
        }
        let mut k: usize = 0;
        while k < self.0.len()
            invariant
                k <= self.0.len() == other.0.len(),
                forall|l: int| 0 <= l < k ==> same_color(self.0@[l], other.0@[l]),
            decreases self.0.len() - k,
        {
            if self.0[k] != other.0[k] {
                return false;
            }
            k += 1;
        }
        true
    }
}

impl PartialEqSpecImpl for Palette {
    open spec fn obeys_eq_spec() -> bool {
        true
    }

    open spec fn eq_spec(&self, other: &Self) -> bool {
        same_colors(self@, other@)
    }
}

} // verus!

verus! {

/// Adding a color to a palette without repeated colors gives one without repeated colors.
pub proof fn law_add_keeps_colors_distinct(colors: Seq<ColorCode>, color: ColorCode)
    requires
        colors_distinct(colors),
    ensures
        colors_distinct(after_add(colors, color)),
{
    let after = after_add(colors, color);
    if !has_color(colors, color) {
        assert forall|i: int, j: int| 0 <= i < j < after.len() implies !same_color(after[i], after[j]) by {
            if j == colors.len() {
                assert(after[i] == colors[i]);
            } else {
                assert(after[i] == colors[i] && after[j] == colors[j]);
            }
        }
    }
}

/// Inserting a color into a palette without repeated colors, anywhere, gives one without
/// repeated colors.
pub proof fn law_insert_keeps_colors_distinct(colors: Seq<ColorCode>, k: int, color: ColorCode)
    requires
        colors_distinct(colors),
        0 <= k <= colors.len(),
    ensures
        colors_distinct(after_insert(colors, k, color)),
{
    let after = after_insert(colors, k, color);
    if !has_color(colors, color) {
        assert forall|i: int, j: int| 0 <= i < j < after.len() implies !same_color(after[i], after[j]) by {
            if i < k {
                assert(after[i] == colors[i]);
                if j == k {
                    assert(after[j] == color);
                } else if j > k {
                    assert(after[j] == colors[j - 1]);
                } else {
                    assert(after[j] == colors[j]);
                }
            } else if i == k {
                assert(after[i] == color);
                assert(after[j] == colors[j - 1]);
            } else {
                assert(after[i] == colors[i - 1]);
                assert(after[j] == colors[j - 1]);
            }
        }
    }
}

/// The palette holds a color after it was added, unless the color is not equal to itself
/// (it has a NaN channel).
pub proof fn law_added_color_is_there(colors: Seq<ColorCode>, color: ColorCode)
    requires
        same_color(color, color),
    ensures
        has_color(after_add(colors, color), color),
{
    if !has_color(colors, color) {
        assert(after_add(colors, color)[colors.len() as int] == color);
    }
}

/// Whether two channels, as stored, hold values that compare unequal: different bits, and not
/// both a zero.
pub open spec fn channel_differs(x: u32, y: u32) -> bool {
    x != y && !(x & 0x7fff_ffffu32 == 0 && y & 0x7fff_ffffu32 == 0)
}

/// Colors compare field by field: codes that are the same color have the same model, working
/// space and white, and in each of the first three channels (all four for CMYK) the same bits or
/// a zero in both (`0.0 == -0.0`); the fourth channel of the other models matches exactly.
pub proof fn law_same_color_channels(a: ColorCode, b: ColorCode)
    requires
        same_color(a, b),
    ensures
        a.model == b.model,
        a.working_space == b.working_space,
        a.illuminant == b.illuminant,
        !channel_differs(a.c0, b.c0),
        !channel_differs(a.c1, b.c1),
        !channel_differs(a.c2, b.c2),
        a.model == ColorModel::Cmyk ==> !channel_differs(a.c3, b.c3),
        a.model != ColorModel::Cmyk ==> a.c3 == b.c3,
{
}

/// Identical codes whose channels hold no NaN are the same color.
pub proof fn law_identical_colors_are_same(a: ColorCode)
    requires
        !is_nan_bits(a.c0),
        !is_nan_bits(a.c1),
        !is_nan_bits(a.c2),
        !is_nan_bits(a.c3),
    ensures
        same_color(a, a),
{
}

/// Whether two codes stand for different colors by their fields: another model, working space
/// or white, or a first three channels that compare unequal.
pub open spec fn codes_differ(a: ColorCode, b: ColorCode) -> bool {
    ||| a.model != b.model
    ||| a.working_space != b.working_space
    ||| a.illuminant != b.illuminant
    ||| channel_differs(a.c0, b.c0)
    ||| channel_differs(a.c1, b.c1)
    ||| channel_differs(a.c2, b.c2)
}

/// A color that differs from every color of a palette is added at its end.
pub proof fn law_add_differing_color(colors: Seq<ColorCode>, color: ColorCode)
    requires
        forall|i: int| 0 <= i < colors.len() ==> codes_differ(#[trigger] colors[i], color),
    ensures
        after_add(colors, color) == colors.push(color),
{
    if has_color(colors, color) {
        let i = choose|i: int| 0 <= i < colors.len() && same_color(colors[i], color);
        law_same_color_channels(colors[i], color);
        assert(codes_differ(colors[i], color));
    }
}

} // verus!
