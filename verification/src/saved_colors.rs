use vstd::prelude::*;
use vstd::string::StringExecFns;

use crate::palette::{same_color, ColorCode};

verus! {

/// The model of a saved color: its hex code and the color.
pub type SavedColor = (Seq<char>, ColorCode);

/// Whether a saved color has the hex code `hex`.
pub open spec fn has_hex(cs: Seq<SavedColor>, hex: Seq<char>) -> bool {
    exists|i: int| 0 <= i < cs.len() && cs[i].0 == hex
}

/// Whether a saved color has the hex code and a color equal to the color of `entry`.
pub open spec fn has_entry(cs: Seq<SavedColor>, entry: SavedColor) -> bool {
    exists|i: int| 0 <= i < cs.len() && cs[i].0 == entry.0 && same_color(cs[i].1, entry.1)
}

/// The position of the first saved color equal to `color`.
pub open spec fn color_index(cs: Seq<SavedColor>, color: ColorCode) -> Option<int> {
    if exists|i: int| 0 <= i < cs.len() && same_color(cs[i].1, color) {
        Some(
            choose|i: int|
                0 <= i < cs.len() && same_color(cs[i].1, color) && forall|j: int| 0 <= j < i ==> !same_color(cs[j].1, color),
        )
    } else {
        None
    }
}

/// The position of the first saved color with the hex code `hex`.
pub open spec fn hex_index(cs: Seq<SavedColor>, hex: Seq<char>) -> Option<int> {
    if has_hex(cs, hex) {
        Some(choose|i: int| 0 <= i < cs.len() && cs[i].0 == hex && forall|j: int| 0 <= j < i ==> cs[j].0 != hex)
    } else {
        None
    }
}

proof fn lemma_hex_index(cs: Seq<SavedColor>, hex: Seq<char>, i: int)
    requires
        0 <= i < cs.len(),
        cs[i].0 == hex,
        forall|j: int| 0 <= j < i ==> cs[j].0 != hex,
    ensures
        hex_index(cs, hex) == Some(i),
{
    let k = choose|k: int| 0 <= k < cs.len() && cs[k].0 == hex && forall|j: int| 0 <= j < k ==> cs[j].0 != hex;
    assert(0 <= k < cs.len() && cs[k].0 == hex && forall|j: int| 0 <= j < k ==> cs[j].0 != hex);
    if k < i {
        assert(cs[k].0 != hex);
    }
    if i < k {
        assert(cs[i].0 != hex);
    }
}

/// The saved colors after saving `color` under `hex`: unchanged if a color with that code is
/// saved, else with the new entry at the end.
pub open spec fn saved_after_add(cs: Seq<SavedColor>, hex: Seq<char>, color: ColorCode) -> Seq<SavedColor> {
    if has_hex(cs, hex) {
        cs
    } else {
        cs.push((hex, color))
    }
}

/// No two saved colors share a hex code.
pub open spec fn hexes_unique(cs: Seq<SavedColor>) -> bool {
    forall|i: int, j: int| 0 <= i < j < cs.len() ==> cs[i].0 != cs[j].0
}

/// The hex codes, each followed by a newline.
pub open spec fn saved_hex_list(cs: Seq<SavedColor>) -> Seq<char>
    decreases cs.len(),
{
    if cs.len() == 0 {
        Seq::empty()
    } else {
        saved_hex_list(cs.drop_last()) + cs.last().0 + seq!['\n']
    }
}

/// Colors saved by the user, each with the hex code it was saved under. No two saved colors
/// share a hex code when they were saved with `add`.
#[derive(Debug, Default)]
pub struct SavedColors(Vec<(String, ColorCode)>);

impl View for SavedColors {
    type V = Seq<SavedColor>;

    closed spec fn view(&self) -> Seq<SavedColor> {
        self.0@.map_values(|e: (String, ColorCode)| (e.0@, e.1))
    }
}

impl SavedColors {
    /// Saved colors with the given entries, in order.
    pub fn from_entries(entries: Vec<(String, ColorCode)>) -> (r: SavedColors)
        ensures
            r@ == entries@.map_values(|e: (String, ColorCode)| (e.0@, e.1)),
    {
        SavedColors(entries)
    }

    /// Saves `color` under its hex code `hex` unless a color with that code is saved; tells
    /// whether it saved it.
    pub fn add(&mut self, hex: String, color: ColorCode) -> (r: bool)
        ensures
            r == !has_hex(old(self)@, hex@),
            final(self)@ == saved_after_add(old(self)@, hex@, color),
    {
        let mut i: usize = 0;
        while i < self.0.len()
            invariant
                i <= self.0.len(),
                forall|j: int| 0 <= j < i ==> self@[j].0 != hex@,
            decreases self.0.len() - i,
        {
            if self.0[i].0 == hex {
                assert(self@[i as int].0 == hex@);
                return false;
            }
            i += 1;
        }
        let ghost hv = hex@;
        self.0.push((hex, color));
        assert(self@ =~= old(self)@.push((hv, color)));
        true
    }

    /// Inserts `color` with its hex code `hex` at position `i` unless that very entry is saved.
    pub fn insert(&mut self, i: usize, hex: String, color: ColorCode)
        requires
            i <= old(self)@.len() || has_entry(old(self)@, (hex@, color)),
        ensures
            has_entry(old(self)@, (hex@, color)) ==> final(self)@ == old(self)@,
            !has_entry(old(self)@, (hex@, color)) ==> final(self)@ == old(self)@.insert(
                i as int,
                (hex@, color),
            ),
    {
        let mut k: usize = 0;
        while k < self.0.len()
            invariant
                k <= self.0.len(),
                forall|j: int| 0 <= j < k ==> !(self@[j].0 == hex@ && same_color(self@[j].1, color)),
            decreases self.0.len() - k,
        {
            if self.0[k].0 == hex && self.0[k].1 == color {
                assert(self@[k as int].0 == hex@ && same_color(self@[k as int].1, color));
                return;
            }
            k += 1;
        }
        let ghost hv = hex@;
        self.0.insert(i, (hex, color));
        assert(self@ =~= old(self)@.insert(i as int, (hv, color)));
    }

    /// Removes the first saved color equal to `color` and gives it back with its hex code, or
    /// gives none if it is not saved.
    pub fn remove(&mut self, color: &ColorCode) -> (r: Option<(String, ColorCode)>)
        ensures
            match color_index(old(self)@, *color) {
                Some(i) => r matches Some(e) && (e.0@, e.1) == old(self)@[i] && final(self)@ == old(
                    self,
                )@.remove(i),
                None => r is None && final(self)@ == old(self)@,
            },
    {
        let mut i: usize = 0;
        while i < self.0.len()
            invariant
                i <= self.0.len(),
                *self == *old(self),
                forall|j: int| 0 <= j < i ==> !same_color(self@[j].1, *color),
            decreases self.0.len() - i,
        {
            if self.0[i].1 == *color {
                proof {
                    lemma_color_index(self@, *color, i as int);
                }
                let e = self.0.remove(i);
                assert(self@ =~= old(self)@.remove(i as int));
                return Some(e);
            }
            i += 1;
        }
        None
    }

    /// Removes the saved color at position `i` and gives it back, or gives none if there is none.
    pub fn remove_pos(&mut self, i: usize) -> (r: Option<(String, ColorCode)>)
        ensures
            i < old(self)@.len() ==> (r matches Some(e) && (e.0@, e.1) == old(self)@[i as int]
                && final(self)@ == old(self)@.remove(i as int)),
            i >= old(self)@.len() ==> r is None && final(self)@ == old(self)@,
    {
        if i < self.0.len() {
            let e = self.0.remove(i);
            assert(self@ =~= old(self)@.remove(i as int));
            Some(e)
        } else {
            None
        }
    }

    pub fn clear(&mut self)
        ensures
            final(self)@.len() == 0,
    {
        self.0.clear();
        assert(self@ =~= Seq::<SavedColor>::empty());
    }

    /// Exchanges the saved colors at positions `a` and `b`.
    pub fn swap(&mut self, a: usize, b: usize)
        requires
            a < old(self)@.len(),
            b < old(self)@.len(),
        ensures
            final(self)@ == old(self)@.update(a as int, old(self)@[b as int]).update(
                b as int,
                old(self)@[a as int],
            ),
    {
        crate::text::swap_elements(&mut self.0, a, b);
        assert(self@ =~= old(self)@.update(a as int, old(self)@[b as int]).update(
            b as int,
            old(self)@[a as int],
        ));
    }

    pub fn is_empty(&self) -> (r: bool)
        ensures
            r == (self@.len() == 0),
    {
        self.0.len() == 0
    }

    /// Removes the first saved color with the hex code `hex` and gives it back, or gives none
    /// if no saved color has that code.
    pub fn remove_hex(&mut self, hex: &str) -> (r: Option<(String, ColorCode)>)
        ensures
            match hex_index(old(self)@, hex@) {
                Some(i) => r matches Some(e) && (e.0@, e.1) == old(self)@[i] && final(self)@ == old(
                    self,
                )@.remove(i),
                None => r is None && final(self)@ == old(self)@,
            },
    {
        let mut i: usize = 0;
        while i < self.0.len()
            invariant
                i <= self.0.len(),
                *self == *old(self),
                forall|j: int| 0 <= j < i ==> self@[j].0 != hex@,
            decreases self.0.len() - i,
        {
            if crate::text::str_equals(self.0[i].0.as_str(), hex) {
                proof {
                    lemma_hex_index(self@, hex@, i as int);
                }
                let e = self.0.remove(i);
                assert(self@ =~= old(self)@.remove(i as int));
                return Some(e);
            }
            i += 1;
        }
        proof {
            assert(!has_hex(self@, hex@));
        }
        None
    }

    /// Moves the saved color at position `i` one place up, if there is a place above it.
    pub fn move_up(&mut self, i: usize)
        ensures
            0 < i < old(self)@.len() ==> final(self)@ == old(self)@.update(
                i as int,
                old(self)@[i - 1],
            ).update(i - 1, old(self)@[i as int]),
            !(0 < i < old(self)@.len()) ==> final(self)@ == old(self)@,
    {
        if i > 0 && i < self.0.len() {
            self.swap(i, i - 1);
        }
    }

    /// Moves the saved color at position `i` one place down, if there is a place below it.
    pub fn move_down(&mut self, i: usize)
        ensures
            i + 1 < old(self)@.len() ==> final(self)@ == old(self)@.update(
                i as int,
                old(self)@[i + 1],
            ).update(i + 1, old(self)@[i as int]),
            !(i + 1 < old(self)@.len()) ==> final(self)@ == old(self)@,
    {
        if i < self.0.len() && i + 1 < self.0.len() {
            self.swap(i, i + 1);
        }
    }

    /// The saved colors with their hex codes, in order.
    pub fn as_slice(&self) -> (r: &[(String, ColorCode)])
        ensures
            r@.map_values(|e: (String, ColorCode)| (e.0@, e.1)) == self@,
    {
        self.0.as_slice()
    }

    /// The hex codes of the saved colors, one per line.
    pub fn as_hex_list(&self) -> (t: String)
        ensures
            t@ == saved_hex_list(self@),
    {
        let mut t = String::new();
        let mut i: usize = 0;
        while i < self.0.len()
            invariant
                i <= self.0.len(),
                t@ == saved_hex_list(self@.subrange(0, i as int)),
            decreases self.0.len() - i,
        {
            t.append(self.0[i].0.as_str());
            crate::text::push_char(&mut t, '\n');
            assert(self@.subrange(0, i + 1).drop_last() =~= self@.subrange(0, i as int));
            i += 1;
            assert(t@ =~= saved_hex_list(self@.subrange(0, i as int)));
        }
        assert(self@.subrange(0, i as int) =~= self@);
        t
    }
}

proof fn lemma_color_index(cs: Seq<SavedColor>, color: ColorCode, i: int)
    requires
        0 <= i < cs.len(),
        same_color(cs[i].1, color),
        forall|j: int| 0 <= j < i ==> !same_color(cs[j].1, color),
    ensures
        color_index(cs, color) == Some(i),
{
    let k = choose|k: int|
        0 <= k < cs.len() && same_color(cs[k].1, color) && forall|j: int| 0 <= j < k ==> !same_color(cs[j].1, color);
    assert(0 <= k < cs.len() && same_color(cs[k].1, color) && forall|j: int| 0 <= j < k ==> !same_color(cs[j].1, color));
    if k < i {
        assert(!same_color(cs[k].1, color));
    }
    if i < k {
        assert(!same_color(cs[i].1, color));
    }
}

/// Saving only with `add` never gives two saved colors the same hex code.
pub proof fn law_add_keeps_hexes_unique(cs: Seq<SavedColor>, hex: Seq<char>, color: ColorCode)
    requires
        hexes_unique(cs),
    ensures
        hexes_unique(saved_after_add(cs, hex, color)),
{
    let after = saved_after_add(cs, hex, color);
    if !has_hex(cs, hex) {
        assert forall|i: int, j: int| 0 <= i < j < after.len() implies after[i].0 != after[j].0 by {
            if j == cs.len() {
                assert(after[i] == cs[i]);
            } else {
                assert(after[i] == cs[i] && after[j] == cs[j]);
            }
        }
    }
}

/// Saving a color under a hex code that was just used changes nothing.
pub proof fn law_add_twice(cs: Seq<SavedColor>, hex: Seq<char>, first: ColorCode, second: ColorCode)
    ensures
        saved_after_add(saved_after_add(cs, hex, first), hex, second) == saved_after_add(cs, hex, first),
{
    let once = saved_after_add(cs, hex, first);
    if !has_hex(cs, hex) {
        assert(once[cs.len() as int].0 == hex);
    }
    assert(has_hex(once, hex));
}

} // verus!
