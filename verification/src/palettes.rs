use vstd::prelude::*;
use vstd::std_specs::cmp::PartialEqSpecImpl;
use vstd::std_specs::iter::IteratorSpec;

use crate::digits::{push_decimal, DigitFormat};
use crate::palette::{same_colors, ColorCode, Palette};

verus! {

/// A palette with a name.
#[derive(Debug, Clone)]
pub struct NamedPalette {
    pub name: String,
    pub palette: Palette,
}

/// The model of a named palette: its name and its colors.
pub type PaletteModel = (Seq<char>, Seq<ColorCode>);

impl View for NamedPalette {
    type V = PaletteModel;

    open spec fn view(&self) -> PaletteModel {
        (self.name@, self.palette@)
    }
}

/// The model of an optional palette.
pub open spec fn opt_model(p: Option<NamedPalette>) -> Option<PaletteModel> {
    match p {
        Some(p) => Some(p@),
        None => None,
    }
}

/// The name of a new palette.
pub open spec fn default_palette_name() -> Seq<char> {
    seq!['p', 'a', 'l', 'e', 't', 't', 'e']
}

/// A new palette: named `palette`, without colors.
pub open spec fn default_palette() -> PaletteModel {
    (default_palette_name(), Seq::empty())
}

impl Default for NamedPalette {
    fn default() -> (r: Self)
        ensures
            r@ == default_palette(),
    {
        let mut name = String::new();
        crate::text::push_char(&mut name, 'p');
        crate::text::push_char(&mut name, 'a');
        crate::text::push_char(&mut name, 'l');
        crate::text::push_char(&mut name, 'e');
        crate::text::push_char(&mut name, 't');
        crate::text::push_char(&mut name, 't');
        crate::text::push_char(&mut name, 'e');
        assert(name@ =~= default_palette_name());
        let palette = Palette::from_colors(Vec::new());
        assert(palette@ =~= Seq::<ColorCode>::empty());
        NamedPalette { name, palette }
    }
}

impl PartialEq for NamedPalette {
    fn eq(&self, other: &Self) -> (r: bool) {
        self.name == other.name && self.palette == other.palette
    }
}

impl PartialEqSpecImpl for NamedPalette {
    open spec fn obeys_eq_spec() -> bool {
        true
    }

    open spec fn eq_spec(&self, other: &Self) -> bool {
        same_palette(self@, other@)
    }
}

proof fn lemma_map_update(ps: Seq<NamedPalette>, i: int, p: NamedPalette)
    requires
        0 <= i < ps.len(),
    ensures
        ps.update(i, p).map_values(|q: NamedPalette| q@) == ps.map_values(|q: NamedPalette| q@).update(
            i,
            p@,
        ),
{
    assert(ps.update(i, p).map_values(|q: NamedPalette| q@) =~= ps.map_values(|q: NamedPalette| q@).update(
        i,
        p@,
    ));
}

/// The model of the palettes: the palettes in order, and the position of the current one.
pub type PalettesModel = (Seq<PaletteModel>, int);

/// There is at least one palette, and the current position names one of them.
pub open spec fn palettes_wf(m: PalettesModel) -> bool {
    m.0.len() >= 1 && 0 <= m.1 < m.0.len()
}

/// Whether a palette named `name` is among `ps`.
pub open spec fn has_name(ps: Seq<PaletteModel>, name: Seq<char>) -> bool {
    exists|i: int| 0 <= i < ps.len() && ps[i].0 == name
}

/// The position of the first palette named `name`.
pub open spec fn name_index(ps: Seq<PaletteModel>, name: Seq<char>) -> Option<int> {
    if has_name(ps, name) {
        Some(
            choose|i: int|
                0 <= i < ps.len() && ps[i].0 == name && forall|j: int| 0 <= j < i ==> ps[j].0 != name,
        )
    } else {
        None
    }
}

/// Whether two palettes are equal: the same name and equal colors at each position.
pub open spec fn same_palette(a: PaletteModel, b: PaletteModel) -> bool {
    a.0 == b.0 && same_colors(a.1, b.1)
}

/// The position of the first palette equal to `p`.
pub open spec fn palette_index(ps: Seq<PaletteModel>, p: PaletteModel) -> Option<int> {
    if exists|i: int| 0 <= i < ps.len() && same_palette(ps[i], p) {
        Some(
            choose|i: int|
                0 <= i < ps.len() && same_palette(ps[i], p) && forall|j: int|
                    0 <= j < i ==> !same_palette(ps[j], p),
        )
    } else {
        None
    }
}

/// No two palettes share a name.
pub open spec fn names_unique(ps: Seq<PaletteModel>) -> bool {
    forall|i: int, j: int| 0 <= i < j < ps.len() ==> ps[i].0 != ps[j].0
}

pub open spec fn spec_next(m: PalettesModel) -> PalettesModel {
    if m.1 + 1 < m.0.len() {
        (m.0, m.1 + 1)
    } else {
        m
    }
}

pub open spec fn spec_prev(m: PalettesModel) -> PalettesModel {
    if m.1 > 0 {
        (m.0, m.1 - 1)
    } else {
        m
    }
}

pub open spec fn spec_move_to_idx(m: PalettesModel, idx: int) -> PalettesModel {
    if 0 <= idx < m.0.len() {
        (m.0, idx)
    } else {
        m
    }
}

pub open spec fn spec_move_to_last(m: PalettesModel) -> PalettesModel {
    (m.0, m.0.len() - 1)
}

pub open spec fn spec_move_to_name(m: PalettesModel, name: Seq<char>) -> PalettesModel {
    match name_index(m.0, name) {
        Some(i) => (m.0, i),
        None => m,
    }
}

/// Adding appends the palette unless one of that name is there; the flag tells whether it did.
pub open spec fn spec_add(m: PalettesModel, p: PaletteModel) -> (PalettesModel, bool) {
    if has_name(m.0, p.0) {
        (m, false)
    } else {
        ((m.0.push(p), m.1), true)
    }
}

/// Inserting puts the palette at position `i` unless one of that name is there; the current
/// palette stays current.
pub open spec fn spec_insert(m: PalettesModel, i: int, p: PaletteModel) -> PalettesModel {
    if has_name(m.0, p.0) {
        m
    } else if i <= m.1 {
        (m.0.insert(i, p), m.1 + 1)
    } else {
        (m.0.insert(i, p), m.1)
    }
}

/// Removing the palette at position `i`: when the last palette goes a new one takes its place;
/// when a palette at or before the current position goes, the position moves back by one unless
/// it is at the start.
pub open spec fn spec_remove_pos(m: PalettesModel, i: int) -> (PalettesModel, Option<PaletteModel>) {
    if 0 <= i < m.0.len() {
        let rest = m.0.remove(i);
        let (ps, cur) = if rest.len() == 0 {
            (seq![default_palette()], 0)
        } else {
            (rest, m.1)
        };
        let cur = if i <= cur && cur > 0 {
            cur - 1
        } else {
            cur
        };
        ((ps, cur), Some(m.0[i]))
    } else {
        (m, None)
    }
}

pub open spec fn spec_remove(m: PalettesModel, p: PaletteModel) -> (PalettesModel, Option<PaletteModel>) {
    match palette_index(m.0, p) {
        Some(i) => spec_remove_pos(m, i),
        None => (m, None),
    }
}

pub open spec fn spec_swap(m: PalettesModel, a: int, b: int) -> PalettesModel {
    (m.0.update(a, m.0[b]).update(b, m.0[a]), m.1)
}

/// The name of the palette that `append_empty` adds: `palette` followed by the decimal number
/// of palettes there are, less one.
pub open spec fn appended_name(m: PalettesModel) -> Seq<char> {
    default_palette_name() + DigitFormat::Decimal.number_text((m.0.len() - 1) as nat)
}

pub open spec fn spec_append_empty(m: PalettesModel) -> PalettesModel {
    spec_add(m, (appended_name(m), Seq::empty())).0
}

/// An ordered collection of named palettes, one of which is the current one. There is always at
/// least one palette.
#[derive(Debug, Clone)]
pub struct Palettes {
    palettes: Vec<NamedPalette>,
    current_idx: usize,
}

impl View for Palettes {
    type V = PalettesModel;

    closed spec fn view(&self) -> PalettesModel {
        (self.palettes@.map_values(|p: NamedPalette| p@), self.current_idx as int)
    }
}

impl Palettes {
    /// There is at least one palette, and the current position names one of them.
    pub open spec fn wf(&self) -> bool {
        palettes_wf(self@)
    }

    /// Position of the first palette named `name`.
    fn position_of_name(&self, name: &String) -> (r: Option<usize>)
        ensures
            match r {
                Some(i) => i < self@.0.len() && self@.0[i as int].0 == name@ && forall|j: int|
                    0 <= j < i ==> self@.0[j].0 != name@,
                None => !has_name(self@.0, name@),
            },
    {
        let mut i: usize = 0;
        while i < self.palettes.len()
            invariant
                i <= self.palettes.len(),
                forall|j: int| 0 <= j < i ==> self@.0[j].0 != name@,
            decreases self.palettes.len() - i,
        {
            if self.palettes[i].name == *name {
                return Some(i);
            }
            i += 1;
        }
        None
    }

    /// Position of the first palette equal to `palette`.
    fn position_of_palette(&self, palette: &NamedPalette) -> (r: Option<usize>)
        ensures
            match r {
                Some(i) => i < self@.0.len() && same_palette(self@.0[i as int], palette@) && forall|
                    j: int,
                | 0 <= j < i ==> !same_palette(self@.0[j], palette@),
                None => !(exists|i: int| 0 <= i < self@.0.len() && same_palette(self@.0[i], palette@)),
            },
    {
        let mut i: usize = 0;
        while i < self.palettes.len()
            invariant
                i <= self.palettes.len(),
                forall|j: int| 0 <= j < i ==> !same_palette(self@.0[j], palette@),
            decreases self.palettes.len() - i,
        {
            if self.palettes[i] == *palette {
                return Some(i);
            }
            i += 1;
        }
        None
    }

    /// Palettes that hold just `palette`, which is current.
    pub fn new(palette: NamedPalette) -> (r: Self)
        ensures
            r.wf(),
            r@ == (seq![palette@], 0int),
    {
        let ghost pv = palette@;
        let palettes = vec![palette];
        let r = Palettes { palettes, current_idx: 0 };
        assert(r@.0 =~= seq![pv]);
        r
    }

    /// Palettes from stored parts, when they make valid palettes: at least one palette, and a
    /// current position among them.
    pub fn from_parts(palettes: Vec<NamedPalette>, current_idx: usize) -> (r: Option<Self>)
        ensures
            r is Some <==> (palettes@.len() >= 1 && current_idx < palettes@.len()),
            r matches Some(p) ==> p.wf() && p@ == (
                palettes@.map_values(|q: NamedPalette| q@),
                current_idx as int,
            ),
    {
        if palettes.len() >= 1 && current_idx < palettes.len() {
            Some(Palettes { palettes, current_idx })
        } else {
            None
        }
    }

    pub fn current_idx(&self) -> (r: usize)
        ensures
            r == self@.1,
    {
        self.current_idx
    }

    /// The current palette.
    pub fn current(&self) -> (r: &NamedPalette)
        requires
            self.wf(),
        ensures
            r@ == self@.0[self@.1],
    {
        &self.palettes[self.current_idx]
    }

    /// The current palette, to change in place; the other palettes and the current position
    /// stay as they are.
    pub fn current_mut(&mut self) -> (r: &mut NamedPalette)
        requires
            old(self).wf(),
        ensures
            r@ == old(self)@.0[old(self)@.1],
            final(self)@ == (old(self)@.0.update(old(self)@.1, final(r)@), old(self)@.1),
            final(self).wf(),
    {
        let idx = self.current_idx;
        let ghost before = self.palettes@;
        let r = &mut self.palettes[idx];
        proof {
            lemma_map_update(before, idx as int, *final(r));
        }
        r
    }

    /// The palette at position `n`, if there is one.
    pub fn nth(&self, n: usize) -> (r: Option<&NamedPalette>)
        ensures
            r is Some <==> n < self@.0.len(),
            r matches Some(p) ==> p@ == self@.0[n as int],
    {
        if n < self.palettes.len() {
            Some(&self.palettes[n])
        } else {
            None
        }
    }

    pub fn len(&self) -> (r: usize)
        ensures
            r == self@.0.len(),
    {
        self.palettes.len()
    }

    /// Moves current index to the next palette if such exists
    pub fn next(&mut self)
        requires
            old(self).wf(),
        ensures
            final(self).wf(),
            final(self)@ == spec_next(old(self)@),
    {
        if self.current_idx < self.palettes.len() - 1 {
            self.current_idx += 1;
        }
    }

    /// Moves current index to the previous palette
    pub fn prev(&mut self)
        requires
            old(self).wf(),
        ensures
            final(self).wf(),
            final(self)@ == spec_prev(old(self)@),
    {
        if self.current_idx > 0 {
            self.current_idx -= 1;
        }
    }

    /// Makes the palette at `idx` current, if there is one.
    pub fn move_to_idx(&mut self, idx: usize)
        requires
            old(self).wf(),
        ensures
            final(self).wf(),
            final(self)@ == spec_move_to_idx(old(self)@, idx as int),
    {
        if idx < self.len() {
            self.current_idx = idx;
        }
    }

    /// Makes the last palette current.
    pub fn move_to_last(&mut self)
        requires
            old(self).wf(),
        ensures
            final(self).wf(),
            final(self)@ == spec_move_to_last(old(self)@),
    {
        self.current_idx = self.len() - 1;
    }

    /// Makes the first palette named `name` current, if there is one.
    pub fn move_to_name(&mut self, name: &str)
        requires
            old(self).wf(),
        ensures
            final(self).wf(),
            final(self)@ == spec_move_to_name(old(self)@, name@),
    {
        let mut i: usize = 0;
        while i < self.palettes.len()
            invariant
                i <= self.palettes.len(),
                *self == *old(self),
                self.wf(),
                forall|j: int| 0 <= j < i ==> self@.0[j].0 != name@,
            decreases self.palettes.len() - i,
        {
            if crate::text::str_equals(self.palettes[i].name.as_str(), name) {
                proof {
                    lemma_name_index(self@.0, name@, i as int);
                }
                self.current_idx = i;
                return;
            }
            i += 1;
        }
    }

    /// An iterator over the palettes, in order.
    pub fn iter(&self) -> (r: std::slice::Iter<'_, NamedPalette>)
        ensures
            r.remaining().map_values(|p: &NamedPalette| p@) == self@.0,
    {
        let it = self.palettes.iter();
        assert(it.remaining().map_values(|p: &NamedPalette| p@) =~= self@.0);
        it
    }

    /// Adds a new empty palette named after the number of palettes, unless one of that name is
    /// there.
    pub fn append_empty(&mut self)
        requires
            old(self).wf(),
        ensures
            final(self).wf(),
            final(self)@ == spec_append_empty(old(self)@),
    {
        let mut palette = NamedPalette::default();
        push_decimal(&mut palette.name, self.len() - 1);
        self.add(palette);
    }

    /// Appends the palette unless one of that name is there; tells whether it did.
    pub fn add(&mut self, palette: NamedPalette) -> (r: bool)
        requires
            old(self).wf(),
        ensures
            final(self).wf(),
            (final(self)@, r) == spec_add(old(self)@, palette@),
    {
        let ghost pv = palette@;
        match self.position_of_name(&palette.name) {
            Some(_) => false,
            None => {
                self.palettes.push(palette);
                assert(self@.0 =~= old(self)@.0.push(pv));
                true
            },
        }
    }

    /// Inserts the palette at position `i` unless one of that name is there; the current
    /// palette stays current.
    pub fn insert(&mut self, i: usize, palette: NamedPalette)
        requires
            old(self).wf(),
            i <= old(self)@.0.len() || has_name(old(self)@.0, palette@.0),
        ensures
            final(self).wf(),
            final(self)@ == spec_insert(old(self)@, i as int, palette@),
    {
        let ghost pv = palette@;
        if self.position_of_name(&palette.name).is_none() {
            self.palettes.insert(i, palette);
            assert(self@.0 =~= old(self)@.0.insert(i as int, pv));
            if i <= self.current_idx {
                self.next();
            }
        }
    }

    /// Removes the palette at position `i` and gives it back, or gives none if there is none.
    /// Removing the last palette puts a new empty one in its place.
    pub fn remove_pos(&mut self, i: usize) -> (r: Option<NamedPalette>)
        requires
            old(self).wf(),
        ensures
            final(self).wf(),
            (final(self)@, opt_model(r)) == spec_remove_pos(old(self)@, i as int),
    {
        if i < self.palettes.len() {
            let removed = self.palettes.remove(i);
            assert(self@.0 =~= old(self)@.0.remove(i as int));
            if self.palettes.len() == 0 {
                self.palettes.push(NamedPalette::default());
                self.current_idx = 0;
                assert(self@.0 =~= seq![default_palette()]);
            }
            if i <= self.current_idx && self.current_idx > 0 {
                self.current_idx -= 1;
            }
            Some(removed)
        } else {
            None
        }
    }

    /// Removes the first palette equal to `palette` and gives it back, or gives none if there is
    /// none.
    pub fn remove(&mut self, palette: &NamedPalette) -> (r: Option<NamedPalette>)
        requires
            old(self).wf(),
        ensures
            final(self).wf(),
            (final(self)@, opt_model(r)) == spec_remove(old(self)@, palette@),
    {
        match self.position_of_palette(palette) {
            Some(i) => {
                proof {
                    lemma_palette_index(self@.0, palette@, i as int);
                }
                self.remove_pos(i)
            },
            None => None,
        }
    }

    /// Removes the current palette.
    pub fn remove_current(&mut self)
        requires
            old(self).wf(),
        ensures
            final(self).wf(),
            final(self)@ == spec_remove_pos(old(self)@, old(self)@.1).0,
    {
        let i = self.current_idx;
        self.remove_pos(i);
    }

    /// Exchanges the palettes at positions `a` and `b`.
    pub fn swap(&mut self, a: usize, b: usize)
        requires
            old(self).wf(),
            a < old(self)@.0.len(),
            b < old(self)@.0.len(),
        ensures
            final(self).wf(),
            final(self)@ == spec_swap(old(self)@, a as int, b as int),
    {
        crate::text::swap_elements(&mut self.palettes, a, b);
        assert(self@.0 =~= spec_swap(old(self)@, a as int, b as int).0);
    }
}

proof fn lemma_name_index(ps: Seq<PaletteModel>, name: Seq<char>, i: int)
    requires
        0 <= i < ps.len(),
        ps[i].0 == name,
        forall|j: int| 0 <= j < i ==> ps[j].0 != name,
    ensures
        name_index(ps, name) == Some(i),
{
    let k = choose|k: int|
        0 <= k < ps.len() && ps[k].0 == name && forall|j: int| 0 <= j < k ==> ps[j].0 != name;
    assert(0 <= k < ps.len() && ps[k].0 == name && forall|j: int| 0 <= j < k ==> ps[j].0 != name);
    if k < i {
        assert(ps[k].0 != name);
    }
    if i < k {
        assert(ps[i].0 != name);
    }
}

proof fn lemma_palette_index(ps: Seq<PaletteModel>, p: PaletteModel, i: int)
    requires
        0 <= i < ps.len(),
        same_palette(ps[i], p),
        forall|j: int| 0 <= j < i ==> !same_palette(ps[j], p),
    ensures
        palette_index(ps, p) == Some(i),
{
    let k = choose|k: int|
        0 <= k < ps.len() && same_palette(ps[k], p) && forall|j: int| 0 <= j < k ==> !same_palette(ps[j], p);
    assert(0 <= k < ps.len() && same_palette(ps[k], p) && forall|j: int|
        0 <= j < k ==> !same_palette(ps[j], p));
    if k < i {
        assert(!same_palette(ps[k], p));
    }
    if i < k {
        assert(!same_palette(ps[i], p));
    }
}

} // verus!

verus! {

/// Stepping forward and then back returns to the same palette, when there is a next one.
pub proof fn law_next_then_prev(m: PalettesModel)
    requires
        palettes_wf(m),
        m.1 + 1 < m.0.len(),
    ensures
        spec_prev(spec_next(m)) == m,
{
}

/// Stepping back and then forward returns to the same palette, when there is a previous one.
pub proof fn law_prev_then_next(m: PalettesModel)
    requires
        palettes_wf(m),
        m.1 > 0,
    ensures
        spec_next(spec_prev(m)) == m,
{
}

/// Inserting a palette of a new name at position `i` and then removing the palette at `i` gives
/// back the palettes and the current position as they were, and hands back the palette.
pub proof fn law_insert_then_remove_pos(m: PalettesModel, i: int, p: PaletteModel)
    requires
        palettes_wf(m),
        0 <= i <= m.0.len(),
        !has_name(m.0, p.0),
    ensures
        spec_remove_pos(spec_insert(m, i, p), i) == (m, Some(p)),
{
    let ins = spec_insert(m, i, p);
    assert(ins.0.remove(i) =~= m.0);
}

/// A palette that `add` took can be removed again from the end, which gives back the palettes
/// as they were.
pub proof fn law_add_then_remove_last(m: PalettesModel, p: PaletteModel)
    requires
        palettes_wf(m),
        spec_add(m, p).1,
    ensures
        spec_remove_pos(spec_add(m, p).0, m.0.len() as int) == (m, Some(p)),
{
    assert(m.0.push(p).remove(m.0.len() as int) =~= m.0);
}

/// After `move_to_name`, the current palette has that name whenever some palette has it.
pub proof fn law_move_to_name(m: PalettesModel, name: Seq<char>)
    requires
        palettes_wf(m),
    ensures
        has_name(m.0, name) ==> {
            let r = spec_move_to_name(m, name);
            palettes_wf(r) && r.0 == m.0 && r.0[r.1].0 == name
        },
        !has_name(m.0, name) ==> spec_move_to_name(m, name) == m,
{
    if has_name(m.0, name) {
        let i = choose|i: int| 0 <= i < m.0.len() && m.0[i].0 == name;
        lemma_first_name_exists(m.0, name, i);
    }
}

proof fn lemma_first_name_exists(ps: Seq<PaletteModel>, name: Seq<char>, i: int)
    requires
        0 <= i < ps.len(),
        ps[i].0 == name,
    ensures
        exists|k: int| 0 <= k < ps.len() && ps[k].0 == name && forall|j: int| 0 <= j < k ==> ps[j].0 != name,
    decreases i,
{
    if forall|j: int| 0 <= j < i ==> ps[j].0 != name {
        assert(0 <= i < ps.len() && ps[i].0 == name && forall|j: int| 0 <= j < i ==> ps[j].0 != name);
    } else {
        let j = choose|j: int| 0 <= j < i && ps[j].0 == name;
        lemma_first_name_exists(ps, name, j);
    }
}

/// Adding, inserting, appending, removing and swapping never make two palettes share a name.
pub proof fn law_names_stay_unique(m: PalettesModel, p: PaletteModel, i: int, a: int, b: int)
    requires
        palettes_wf(m),
        names_unique(m.0),
    ensures
        names_unique(spec_add(m, p).0.0),
        0 <= i <= m.0.len() ==> names_unique(spec_insert(m, i, p).0),
        names_unique(spec_append_empty(m).0),
        names_unique(spec_remove_pos(m, i).0.0),
        0 <= a < m.0.len() && 0 <= b < m.0.len() ==> names_unique(spec_swap(m, a, b).0),
{
    let added = spec_add(m, p).0.0;
    assert forall|x: int, y: int| 0 <= x < y < added.len() implies added[x].0 != added[y].0 by {
        if !has_name(m.0, p.0) && y == m.0.len() {
            assert(m.0[x].0 != p.0);
        }
    }
    let e = (appended_name(m), Seq::<ColorCode>::empty());
    let appended = spec_add(m, e).0.0;
    assert forall|x: int, y: int| 0 <= x < y < appended.len() implies appended[x].0 != appended[y].0 by {
        if !has_name(m.0, e.0) && y == m.0.len() {
            assert(m.0[x].0 != e.0);
        }
    }
    if 0 <= i <= m.0.len() {
        let ins = spec_insert(m, i, p).0;
        assert forall|x: int, y: int| 0 <= x < y < ins.len() implies ins[x].0 != ins[y].0 by {
            if !has_name(m.0, p.0) {
                if x < i && y < i {
                } else if x < i && y == i {
                    assert(m.0[x].0 != p.0);
                } else if x < i && y > i {
                    assert(ins[y] == m.0[y - 1]);
                } else if x == i {
                    assert(ins[y] == m.0[y - 1]);
                    assert(m.0[y - 1].0 != p.0);
                } else {
                    assert(ins[x] == m.0[x - 1]);
                    assert(ins[y] == m.0[y - 1]);
                }
            }
        }
    }
    if 0 <= i < m.0.len() {
        let rest = m.0.remove(i);
        assert forall|x: int, y: int| 0 <= x < y < rest.len() implies rest[x].0 != rest[y].0 by {
            if x < i && y < i {
            } else if x < i {
                assert(rest[y] == m.0[y + 1]);
            } else {
                assert(rest[x] == m.0[x + 1]);
                assert(rest[y] == m.0[y + 1]);
            }
        }
    }
    if 0 <= a < m.0.len() && 0 <= b < m.0.len() {
        let sw = spec_swap(m, a, b).0;
        assert forall|x: int, y: int| 0 <= x < y < sw.len() implies sw[x].0 != sw[y].0 by {
            let ox = if x == b { a } else if x == a { b } else { x };
            let oy = if y == b { a } else if y == a { b } else { y };
            assert(sw[x] == m.0[ox]);
            assert(sw[y] == m.0[oy]);
            if ox < oy {
                assert(m.0[ox].0 != m.0[oy].0);
            } else if oy < ox {
                assert(m.0[oy].0 != m.0[ox].0);
            }
        }
    }
}

/// Where some palette equals `p`, the first one is found.
proof fn lemma_palette_index_found(ps: Seq<PaletteModel>, p: PaletteModel, w: int)
    requires
        0 <= w < ps.len(),
        same_palette(ps[w], p),
    ensures
        palette_index(ps, p) matches Some(i) && 0 <= i < ps.len() && same_palette(ps[i], p),
    decreases w,
{
    if exists|j: int| 0 <= j < w && same_palette(ps[j], p) {
        let j = choose|j: int| 0 <= j < w && same_palette(ps[j], p);
        lemma_palette_index_found(ps, p, j);
    } else {
        lemma_palette_index(ps, p, w);
    }
}

/// Equal palettes have the same name and as many colors, each equal to the color at its
/// position in the other.
pub proof fn law_equal_palettes_share_name(a: PaletteModel, b: PaletteModel)
    requires
        same_palette(a, b),
    ensures
        a.0 == b.0,
        a.1.len() == b.1.len(),
        forall|i: int| 0 <= i < a.1.len() ==> crate::palette::same_color(#[trigger] a.1[i], b.1[i]),
{
}

/// Removing a palette removes one with the same name and as many colors, and removes nothing
/// when no palette has that name.
pub proof fn law_remove_takes_the_named_palette(m: PalettesModel, p: PaletteModel)
    requires
        palettes_wf(m),
    ensures
        spec_remove(m, p).1 matches Some(q) ==> q.0 == p.0 && q.1.len() == p.1.len(),
        !has_name(m.0, p.0) ==> spec_remove(m, p) == (m, None::<PaletteModel>),
{
    if exists|i: int| 0 <= i < m.0.len() && same_palette(m.0[i], p) {
        let w = choose|i: int| 0 <= i < m.0.len() && same_palette(m.0[i], p);
        lemma_palette_index_found(m.0, p, w);
    }
    if !has_name(m.0, p.0) {
        if exists|i: int| 0 <= i < m.0.len() && same_palette(m.0[i], p) {
            let i = choose|i: int| 0 <= i < m.0.len() && same_palette(m.0[i], p);
            assert(m.0[i].0 == p.0);
        }
    }
}

} // verus!
