//! Sparse screen model: a grid of cells where only non-default content is
//! stored.

use vstd::prelude::*;

verus! {

/// A packed terminal color: either a palette index or a direct RGB value.
///
/// The low three bytes hold the red, green and blue components (or the
/// palette index in the low byte); the high bit marks an indexed color.
#[derive(Debug, Copy, Clone, PartialEq, Eq, Structural)]
pub struct Color(pub u32);

impl Color {
    /// The value a color stores when it is a palette index.
    pub open spec fn spec_indexed(index: u8) -> u32 {
        0x8000_0000u32 | (index as u32)
    }

    /// The value a color stores when it is a direct RGB color.
    pub open spec fn spec_rgb(r: u8, g: u8, b: u8) -> u32 {
        ((r as u32) << 16) | ((g as u32) << 8) | (b as u32)
    }

    pub open spec fn spec_r(self) -> u8 {
        ((self.0 >> 16) & 0xFF) as u8
    }

    pub open spec fn spec_g(self) -> u8 {
        ((self.0 >> 8) & 0xFF) as u8
    }

    pub open spec fn spec_b(self) -> u8 {
        (self.0 & 0xFF) as u8
    }

    pub open spec fn spec_is_indexed(self) -> bool {
        self.0 & 0x8000_0000u32 != 0
    }

    /// The palette index of an indexed color.
    pub open spec fn spec_index(self) -> u8 {
        (self.0 & 0xFF) as u8
    }

    /// A direct RGB color from its three components.
    pub fn rgb(r: u8, g: u8, b: u8) -> (c: Self)
        ensures
            c.0 == Self::spec_rgb(r, g, b),
            !c.spec_is_indexed(),
            c.spec_r() == r,
            c.spec_g() == g,
            c.spec_b() == b,
    {
        let v: u32 = ((r as u32) << 16) | ((g as u32) << 8) | (b as u32);
        proof {
            assert(((((r as u32) << 16) | ((g as u32) << 8) | (b as u32)) & 0x8000_0000u32) == 0)
                by (bit_vector);
            assert((((((r as u32) << 16) | ((g as u32) << 8) | (b as u32)) >> 16) & 0xFF) as u8
                == r) by (bit_vector);
            assert((((((r as u32) << 16) | ((g as u32) << 8) | (b as u32)) >> 8) & 0xFF) as u8
                == g) by (bit_vector);
            assert(((((r as u32) << 16) | ((g as u32) << 8) | (b as u32)) & 0xFF) as u8 == b)
                by (bit_vector);
        }
        Color(v)
    }

    /// An indexed color from its palette index.
    pub fn indexed(index: u8) -> (c: Self)
        ensures
            c.0 == Self::spec_indexed(index),
            c.spec_is_indexed(),
            c.spec_index() == index,
    {
        let v: u32 = 0x8000_0000u32 | (index as u32);
        proof {
            assert((0x8000_0000u32 | (index as u32)) & 0x8000_0000u32 != 0) by (bit_vector);
            assert(((0x8000_0000u32 | (index as u32)) & 0xFF) as u8 == index) by (bit_vector);
        }
        Color(v)
    }

    /// The red component.
    pub fn r(&self) -> (r: u8)
        ensures
            r == self.spec_r(),
    {
        ((self.0 >> 16) & 0xFF) as u8
    }

    /// The green component.
    pub fn g(&self) -> (g: u8)
        ensures
            g == self.spec_g(),
    {
        ((self.0 >> 8) & 0xFF) as u8
    }

    /// The blue component.
    pub fn b(&self) -> (b: u8)
        ensures
            b == self.spec_b(),
    {
        (self.0 & 0xFF) as u8
    }

    /// Whether this color is a palette index rather than a direct RGB value.
    pub fn is_indexed(&self) -> (r: bool)
        ensures
            r == self.spec_is_indexed(),
    {
        self.0 & 0x8000_0000u32 != 0
    }

    /// The palette index, when this color is indexed.
    pub fn index(&self) -> (r: Option<u8>)
        ensures
            r == if self.spec_is_indexed() {
                Some(self.spec_index())
            } else {
                None::<u8>
            },
    {
        if self.is_indexed() {
            Some((self.0 & 0xFF) as u8)
        } else {
            None
        }
    }
}


/// Per-cell attribute flags; the set is not populated yet.
#[derive(Debug, Copy, Clone, PartialEq, Eq, Structural)]
pub struct CellAttributes {}

impl Default for CellAttributes {
    /// The empty attribute set.
    fn default() -> (r: Self)
        ensures
            r == (CellAttributes {  }),
    {
        CellAttributes {  }
    }
}

/// One character cell of the screen: its character, attributes and colors.
#[derive(Debug, Copy, Clone, PartialEq, Eq, Structural)]
pub struct Cell {
    pub ch: char,
    pub attrs: CellAttributes,
    pub fg: Color,
    pub bg: Color,
}

/// The cell a freshly written character produces: default colors, the given
/// character and attributes.
pub open spec fn cell_model(ch: char, attrs: CellAttributes) -> Cell {
    Cell {
        ch,
        attrs,
        fg: Color(Color::spec_indexed(0)),
        bg: Color(Color::spec_indexed(0)),
    }
}

impl Cell {
    /// The default cell: a space with no attributes and index-zero colors.
    pub open spec fn spec_default() -> Cell {
        cell_model(' ', CellAttributes {  })
    }

    /// A cell holding one freshly written character.
    pub fn new(ch: char, attrs: CellAttributes) -> (c: Cell)
        ensures
            c == cell_model(ch, attrs),
    {
        Cell { ch, attrs, fg: Color::indexed(0), bg: Color::indexed(0) }
    }

    /// Whether this cell equals the default cell.
    pub fn is_default(self) -> (r: bool)
        ensures
            r == (self == Cell::spec_default()),
    {
        self == Cell::default()
    }
}

impl Default for Cell {
    /// The default cell.
    fn default() -> (r: Self)
        ensures
            r == Cell::spec_default(),
    {
        Cell { ch: ' ', attrs: CellAttributes {  }, fg: Color::indexed(0), bg: Color::indexed(0) }
    }
}

/// Capacity of a line's inline storage tier.
pub const INLINE_CELLS: usize = 8;

/// The cell a storage tier holds for a column: the first entry with that
/// column, or nothing.
pub open spec fn tier_lookup(s: Seq<(u16, Cell)>, x: u16) -> Option<Cell>
    decreases s.len(),
{
    if s.len() == 0 {
        None
    } else if s[0].0 == x {
        Some(s[0].1)
    } else {
        tier_lookup(s.drop_first(), x)
    }
}

/// A well-formed storage tier: columns strictly increasing and inside the
/// width, and never holding the default cell.
pub open spec fn tier_wf(s: Seq<(u16, Cell)>, width: u16) -> bool {
    &&& forall|i: int, j: int| 0 <= i < j < s.len() ==> (#[trigger] s[i]).0 < (#[trigger] s[j]).0
    &&& forall|i: int| 0 <= i < s.len() ==> (#[trigger] s[i]).0 < width
    &&& forall|i: int| 0 <= i < s.len() ==> (#[trigger] s[i]).1 != Cell::spec_default()
}

/// A tier none of whose entries carry column `x` holds nothing for `x`.
proof fn lemma_lookup_absent(s: Seq<(u16, Cell)>, x: u16)
    requires
        forall|i: int| 0 <= i < s.len() ==> (#[trigger] s[i]).0 != x,
    ensures
        tier_lookup(s, x) is None,
    decreases s.len(),
{
    if s.len() > 0 {
        assert(forall|i: int|
            0 <= i < s.drop_first().len() ==> (#[trigger] s.drop_first()[i]).0 != x);
        lemma_lookup_absent(s.drop_first(), x);
    }
}

/// A tier whose first entry for column `x` stands at index `i` holds that
/// entry's cell for `x`.
proof fn lemma_lookup_found(s: Seq<(u16, Cell)>, i: int)
    requires
        0 <= i < s.len(),
        forall|j: int| 0 <= j < i ==> (#[trigger] s[j]).0 != s[i].0,
    ensures
        tier_lookup(s, s[i].0) == Some(s[i].1),
    decreases i,
{
    if i > 0 {
        assert(s.drop_first()[i - 1] == s[i]);
        assert(forall|j: int|
            0 <= j < i - 1 ==> (#[trigger] s.drop_first()[j]).0 != s.drop_first()[i - 1].0);
        lemma_lookup_found(s.drop_first(), i - 1);
    }
}

/// Looking a column up in a concatenation reads the left part first.
proof fn lemma_lookup_concat(a: Seq<(u16, Cell)>, b: Seq<(u16, Cell)>, x: u16)
    ensures
        tier_lookup(a + b, x) == if tier_lookup(a, x) is Some {
            tier_lookup(a, x)
        } else {
            tier_lookup(b, x)
        },
    decreases a.len(),
{
    if a.len() == 0 {
        assert(a + b =~= b);
    } else {
        assert((a + b)[0] == a[0]);
        assert((a + b).drop_first() =~= a.drop_first() + b);
        lemma_lookup_concat(a.drop_first(), b, x);
    }
}

/// Overwriting the entry at `i` changes what the tier holds for its column
/// and nothing else.
proof fn lemma_lookup_update(s: Seq<(u16, Cell)>, i: int, c: Cell)
    requires
        0 <= i < s.len(),
        forall|j: int| 0 <= j < i ==> (#[trigger] s[j]).0 != s[i].0,
    ensures
        tier_lookup(s.update(i, (s[i].0, c)), s[i].0) == Some(c),
        forall|y: u16|
            y != s[i].0 ==> tier_lookup(s.update(i, (s[i].0, c)), y) == tier_lookup(s, y),
{
    let x = s[i].0;
    let t = s.update(i, (x, c));
    let pre = s.subrange(0, i);
    let suf = s.subrange(i + 1, s.len() as int);
    assert(s =~= pre + (seq![s[i]] + suf));
    assert(t =~= pre + (seq![(x, c)] + suf));
    assert(forall|j: int| 0 <= j < pre.len() ==> (#[trigger] pre[j]).0 != x);
    lemma_lookup_absent(pre, x);
    lemma_lookup_concat(pre, seq![(x, c)] + suf, x);
    lemma_lookup_concat(seq![(x, c)], suf, x);
    assert(tier_lookup(seq![(x, c)], x) == Some(c));
    assert forall|y: u16| y != x implies tier_lookup(t, y) == tier_lookup(s, y) by {
        lemma_lookup_concat(pre, seq![(x, c)] + suf, y);
        lemma_lookup_concat(pre, seq![s[i]] + suf, y);
        lemma_lookup_concat(seq![(x, c)], suf, y);
        lemma_lookup_concat(seq![s[i]], suf, y);
        reveal_with_fuel(tier_lookup, 2);
        assert(tier_lookup(seq![(x, c)], y) is None);
        assert(tier_lookup(seq![s[i]], y) is None);
    }
}

/// Removing the only entry for a column leaves the tier without that column
/// and keeps every other column's cell.
proof fn lemma_lookup_remove(s: Seq<(u16, Cell)>, i: int)
    requires
        0 <= i < s.len(),
        forall|j: int| 0 <= j < s.len() && j != i ==> (#[trigger] s[j]).0 != s[i].0,
    ensures
        tier_lookup(s.remove(i), s[i].0) is None,
        forall|y: u16| y != s[i].0 ==> tier_lookup(s.remove(i), y) == tier_lookup(s, y),
{
    let x = s[i].0;
    let t = s.remove(i);
    let pre = s.subrange(0, i);
    let suf = s.subrange(i + 1, s.len() as int);
    assert(s =~= pre + (seq![s[i]] + suf));
    assert(t =~= pre + suf);
    assert(forall|j: int| 0 <= j < pre.len() ==> (#[trigger] pre[j]).0 != x);
    assert(forall|j: int| 0 <= j < suf.len() ==> (#[trigger] suf[j]).0 != x);
    lemma_lookup_absent(pre, x);
    lemma_lookup_absent(suf, x);
    lemma_lookup_concat(pre, suf, x);
    assert forall|y: u16| y != x implies tier_lookup(t, y) == tier_lookup(s, y) by {
        lemma_lookup_concat(pre, suf, y);
        lemma_lookup_concat(pre, seq![s[i]] + suf, y);
        lemma_lookup_concat(seq![s[i]], suf, y);
        reveal_with_fuel(tier_lookup, 2);
        assert(tier_lookup(seq![s[i]], y) is None);
    }
}

/// Inserting an entry ahead of every other entry for its column makes the
/// tier hold its cell and keeps every other column's cell.
proof fn lemma_lookup_insert(s: Seq<(u16, Cell)>, i: int, e: (u16, Cell))
    requires
        0 <= i <= s.len(),
        forall|j: int| 0 <= j < i ==> (#[trigger] s[j]).0 != e.0,
    ensures
        tier_lookup(s.insert(i, e), e.0) == Some(e.1),
        forall|y: u16| y != e.0 ==> tier_lookup(s.insert(i, e), y) == tier_lookup(s, y),
{
    let x = e.0;
    let t = s.insert(i, e);
    let pre = s.subrange(0, i);
    let suf = s.subrange(i, s.len() as int);
    assert(s =~= pre + suf);
    assert(t =~= pre + (seq![e] + suf));
    assert(forall|j: int| 0 <= j < pre.len() ==> (#[trigger] pre[j]).0 != x);
    lemma_lookup_absent(pre, x);
    lemma_lookup_concat(pre, seq![e] + suf, x);
    lemma_lookup_concat(seq![e], suf, x);
    assert(tier_lookup(seq![e], x) == Some(e.1));
    assert forall|y: u16| y != x implies tier_lookup(t, y) == tier_lookup(s, y) by {
        lemma_lookup_concat(pre, seq![e] + suf, y);
        lemma_lookup_concat(pre, suf, y);
        lemma_lookup_concat(seq![e], suf, y);
        reveal_with_fuel(tier_lookup, 2);
        assert(tier_lookup(seq![e], y) is None);
    }
}

/// Overwriting an entry with a non-default cell keeps a tier well-formed.
proof fn lemma_tier_wf_update(s: Seq<(u16, Cell)>, i: int, c: Cell, width: u16)
    requires
        tier_wf(s, width),
        0 <= i < s.len(),
        c != Cell::spec_default(),
    ensures
        tier_wf(s.update(i, (s[i].0, c)), width),
{
    let t = s.update(i, (s[i].0, c));
    assert(forall|k: int| 0 <= k < s.len() ==> (#[trigger] t[k]).0 == s[k].0);
}

/// Removing an entry keeps a tier well-formed.
proof fn lemma_tier_wf_remove(s: Seq<(u16, Cell)>, i: int, width: u16)
    requires
        tier_wf(s, width),
        0 <= i < s.len(),
    ensures
        tier_wf(s.remove(i), width),
{
    let t = s.remove(i);
    assert(t.len() == s.len() - 1);
    assert(forall|k: int| 0 <= k < i ==> t[k] == s[k]);
    assert(forall|k: int| i <= k < t.len() ==> t[k] == s[k + 1]);
    assert forall|k: int, l: int| 0 <= k < l < t.len() implies (#[trigger] t[k]).0 < (
    #[trigger] t[l]).0 by {
        if k < i && l < i {
        } else if k < i {
            assert(t[l] == s[l + 1]);
        } else {
            assert(t[k] == s[k + 1]);
            assert(t[l] == s[l + 1]);
        }
    }
}

/// Inserting an entry between the smaller and the larger columns keeps a
/// tier well-formed.
proof fn lemma_tier_wf_insert(s: Seq<(u16, Cell)>, i: int, e: (u16, Cell), width: u16)
    requires
        tier_wf(s, width),
        0 <= i <= s.len(),
        e.0 < width,
        e.1 != Cell::spec_default(),
        forall|j: int| 0 <= j < i ==> (#[trigger] s[j]).0 < e.0,
        forall|j: int| i <= j < s.len() ==> (#[trigger] s[j]).0 > e.0,
    ensures
        tier_wf(s.insert(i, e), width),
{
    let t = s.insert(i, e);
    assert(t.len() == s.len() + 1);
    assert(forall|k: int| 0 <= k < i ==> t[k] == s[k]);
    assert(t[i] == e);
    assert(forall|k: int| i < k < t.len() ==> t[k] == s[k - 1]);
    assert forall|k: int, l: int| 0 <= k < l < t.len() implies (#[trigger] t[k]).0 < (
    #[trigger] t[l]).0 by {
        if k < i && l < i {
        } else if k < i && l == i {
        } else if k < i && l > i {
            assert(t[l] == s[l - 1]);
        } else if k == i {
            assert(t[l] == s[l - 1]);
        } else {
            assert(t[k] == s[k - 1]);
            assert(t[l] == s[l - 1]);
        }
    }
}

/// The index of the first entry of a tier holding a column, if any holds it.
fn tier_find(v: &Vec<(u16, Cell)>, x: u16) -> (r: Option<usize>)
    ensures
        match r {
            Some(i) => i < v@.len() && v@[i as int].0 == x && (forall|j: int|
                0 <= j < i ==> (#[trigger] v@[j]).0 != x),
            None => forall|j: int| 0 <= j < v@.len() ==> (#[trigger] v@[j]).0 != x,
        },
{
    let mut i: usize = 0;
    while i < v.len()
        invariant
            i <= v@.len(),
            forall|j: int| 0 <= j < i ==> (#[trigger] v@[j]).0 != x,
        decreases v@.len() - i,
    {
        if v[i].0 == x {
            return Some(i);
        }
        i = i + 1;
    }
    None
}

/// One screen row: a small inline tier for hot writes and a heap-backed
/// overflow tier, both sorted by column and holding only non-default cells,
/// with any column resident in at most one tier.
#[derive(Debug)]
pub struct Line {
    inline_cells: Vec<(u16, Cell)>,
    overflow: Vec<(u16, Cell)>,
    #[allow(dead_code)]
    attributes: CellAttributes,
    width: u16,
}

impl Line {
    /// The entries of the inline tier, in column order.
    pub closed spec fn inline_model(&self) -> Seq<(u16, Cell)> {
        self.inline_cells@
    }

    /// The entries of the overflow tier, in column order.
    pub closed spec fn overflow_model(&self) -> Seq<(u16, Cell)> {
        self.overflow@
    }

    /// The fixed width of the row.
    pub closed spec fn spec_width(&self) -> u16 {
        self.width
    }

    /// Whether one of the tiers stores the column.
    pub open spec fn occupied(&self, x: u16) -> bool {
        tier_lookup(self.inline_model(), x) is Some || tier_lookup(self.overflow_model(), x)
            is Some
    }

    /// The cell the row shows at a column: the stored cell, or the default.
    pub open spec fn at(&self, x: u16) -> Cell {
        match tier_lookup(self.inline_model(), x) {
            Some(c) => c,
            None => match tier_lookup(self.overflow_model(), x) {
                Some(c) => c,
                None => Cell::spec_default(),
            },
        }
    }

    #[verifier::type_invariant]
    spec fn inv(self) -> bool {
        &&& tier_wf(self.inline_model(), self.width)
        &&& tier_wf(self.overflow_model(), self.width)
        &&& self.inline_model().len() <= INLINE_CELLS
        &&& forall|i: int, j: int|
            0 <= i < self.inline_model().len() && 0 <= j < self.overflow_model().len() ==> (
            #[trigger] self.inline_model()[i]).0 != (#[trigger] self.overflow_model()[j]).0
    }

    /// A fresh row of the given width, storing nothing.
    pub fn new(width: u16) -> (r: Self)
        ensures
            r.spec_width() == width,
            r.inline_model() == Seq::<(u16, Cell)>::empty(),
            r.overflow_model() == Seq::<(u16, Cell)>::empty(),
            forall|x: u16| r.at(x) == Cell::spec_default(),
            forall|x: u16| !r.occupied(x),
    {
        let r = Line {
            inline_cells: Vec::new(),
            overflow: Vec::new(),
            attributes: CellAttributes::default(),
            width,
        };
        proof {
            assert forall|x: u16| r.at(x) == Cell::spec_default() && !r.occupied(x) by {
                lemma_lookup_absent(r.inline_model(), x);
                lemma_lookup_absent(r.overflow_model(), x);
            }
        }
        r
    }

    /// The cell at a column; out-of-range columns show the default cell.
    pub fn get(&self, x: u16) -> (r: Cell)
        ensures
            r == self.at(x),
            x >= self.spec_width() ==> r == Cell::spec_default(),
    {
        proof {
            use_type_invariant(self);
        }
        if x >= self.width {
            proof {
                lemma_lookup_absent(self.inline_model(), x);
                lemma_lookup_absent(self.overflow_model(), x);
            }
            return Cell::default();
        }
        match tier_find(&self.inline_cells, x) {
            Some(i) => {
                proof {
                    lemma_lookup_found(self.inline_model(), i as int);
                }
                return self.inline_cells[i].1;
            }
            None => {
                proof {
                    lemma_lookup_absent(self.inline_model(), x);
                }
            }
        }
        match tier_find(&self.overflow, x) {
            Some(i) => {
                proof {
                    lemma_lookup_found(self.overflow_model(), i as int);
                }
                return self.overflow[i].1;
            }
            None => {
                proof {
                    lemma_lookup_absent(self.overflow_model(), x);
                }
            }
        }
        Cell::default()
    }

    /// How many entries each tier stores: (inline, overflow).
    pub fn stored_cells(&self) -> (r: (usize, usize))
        ensures
            r.0 == self.inline_model().len(),
            r.1 == self.overflow_model().len(),
    {
        (self.inline_cells.len(), self.overflow.len())
    }

    /// The position in the inline tier at which an entry for column `x`
    /// keeps the tier sorted: the index of the first larger column.
    fn find_insert_position(&self, x: u16) -> (r: usize)
        ensures
            r <= self.inline_model().len(),
            forall|j: int| 0 <= j < r ==> (#[trigger] self.inline_model()[j]).0 <= x,
            forall|j: int|
                r <= j < self.inline_model().len() ==> (#[trigger] self.inline_model()[j]).0 > x,
    {
        proof {
            use_type_invariant(self);
        }
        let mut i: usize = 0;
        while i < self.inline_cells.len()
            invariant
                i <= self.inline_model().len(),
                forall|j: int| 0 <= j < i ==> (#[trigger] self.inline_model()[j]).0 <= x,
                tier_wf(self.inline_model(), self.spec_width()),
            decreases self.inline_model().len() - i,
        {
            if self.inline_cells[i].0 > x {
                return i;
            }
            i = i + 1;
        }
        i
    }

    /// The position in the overflow tier at which an entry for a column not
    /// yet stored keeps the tier sorted.
    fn overflow_insert_position(&self, x: u16) -> (r: usize)
        ensures
            r <= self.overflow_model().len(),
            forall|j: int| 0 <= j < r ==> (#[trigger] self.overflow_model()[j]).0 <= x,
            forall|j: int|
                r <= j < self.overflow_model().len() ==> (#[trigger] self.overflow_model()[j]).0
                    > x,
    {
        proof {
            use_type_invariant(self);
        }
        let mut i: usize = 0;
        while i < self.overflow.len()
            invariant
                i <= self.overflow_model().len(),
                forall|j: int| 0 <= j < i ==> (#[trigger] self.overflow_model()[j]).0 <= x,
                tier_wf(self.overflow_model(), self.spec_width()),
            decreases self.overflow_model().len() - i,
        {
            if self.overflow[i].0 > x {
                return i;
            }
            i = i + 1;
        }
        i
    }

    /// Write a cell at a column. Out-of-range columns are a no-op. The
    /// default cell is never stored: writing it removes the column from
    /// whichever tier held it. A non-default cell overwrites the column
    /// where it is resident, else goes to the inline tier while it has
    /// room, else to the overflow tier. Re-writing the value a column
    /// already holds leaves both tiers untouched.
    pub fn set(&mut self, x: u16, cell: Cell)
        ensures
            final(self).spec_width() == old(self).spec_width(),
            x >= old(self).spec_width() ==> *final(self) == *old(self),
            x < old(self).spec_width() ==> (forall|y: u16|
                y != x ==> final(self).at(y) == old(self).at(y)),
            x < old(self).spec_width() ==> final(self).at(x) == if cell == Cell::spec_default() {
                Cell::spec_default()
            } else {
                cell
            },
            x < old(self).spec_width() ==> (final(self).occupied(x) <==> cell
                != Cell::spec_default()),
            cell != Cell::spec_default() && old(self).occupied(x) && old(self).at(x) == cell ==> (
            final(self).inline_model() == old(self).inline_model() && final(self).overflow_model()
                == old(self).overflow_model()),
    {
        proof {
            use_type_invariant(&*self);
        }
        if x >= self.width {
            return;
        }
        let is_def = cell.is_default();
        match tier_find(&self.inline_cells, x) {
            Some(i) => {
                proof {
                    lemma_lookup_found(self.inline_model(), i as int);
                }
                let mut inline: Vec<(u16, Cell)> = Vec::new();
                core::mem::swap(&mut inline, &mut self.inline_cells);
                if is_def {
                    proof {
                        lemma_tier_wf_remove(inline@, i as int, self.width);
                        lemma_lookup_remove(inline@, i as int);
                        assert(forall|j: int|
                            0 <= j < self.overflow_model().len() ==> (
                            #[trigger] self.overflow_model()[j]).0 != x);
                        lemma_lookup_absent(self.overflow_model(), x);
                    }
                    inline.remove(i);
                } else {
                    proof {
                        lemma_tier_wf_update(inline@, i as int, cell, self.width);
                        lemma_lookup_update(inline@, i as int, cell);
                        if old(self).at(x) == cell {
                            assert(inline@[i as int] == (x, cell));
                            assert(inline@.update(i as int, (x, cell)) =~= inline@);
                        }
                    }
                    inline[i] = (x, cell);
                }
                core::mem::swap(&mut inline, &mut self.inline_cells);
            }
            None => {
                proof {
                    lemma_lookup_absent(self.inline_model(), x);
                }
                match tier_find(&self.overflow, x) {
                    Some(i) => {
                        proof {
                            lemma_lookup_found(self.overflow_model(), i as int);
                        }
                        let mut over: Vec<(u16, Cell)> = Vec::new();
                        core::mem::swap(&mut over, &mut self.overflow);
                        if is_def {
                            proof {
                                lemma_tier_wf_remove(over@, i as int, self.width);
                                lemma_lookup_remove(over@, i as int);
                            }
                            over.remove(i);
                        } else {
                            proof {
                                lemma_tier_wf_update(over@, i as int, cell, self.width);
                                lemma_lookup_update(over@, i as int, cell);
                                if old(self).at(x) == cell {
                                    assert(over@[i as int] == (x, cell));
                                    assert(over@.update(i as int, (x, cell)) =~= over@);
                                }
                            }
                            over[i] = (x, cell);
                        }
                        core::mem::swap(&mut over, &mut self.overflow);
                    }
                    None => {
                        proof {
                            lemma_lookup_absent(self.overflow_model(), x);
                        }
                        if is_def {
                            // Nothing stores the column; nothing to remove.
                        } else if self.inline_cells.len() < INLINE_CELLS {
                            let pos = self.find_insert_position(x);
                            let mut inline: Vec<(u16, Cell)> = Vec::new();
                            core::mem::swap(&mut inline, &mut self.inline_cells);
                            proof {
                                lemma_tier_wf_insert(inline@, pos as int, (x, cell), self.width);
                                lemma_lookup_insert(inline@, pos as int, (x, cell));
                            }
                            inline.insert(pos, (x, cell));
                            core::mem::swap(&mut inline, &mut self.inline_cells);
                        } else {
                            let pos = self.overflow_insert_position(x);
                            let mut over: Vec<(u16, Cell)> = Vec::new();
                            core::mem::swap(&mut over, &mut self.overflow);
                            proof {
                                lemma_tier_wf_insert(over@, pos as int, (x, cell), self.width);
                                lemma_lookup_insert(over@, pos as int, (x, cell));
                            }
                            over.insert(pos, (x, cell));
                            core::mem::swap(&mut over, &mut self.overflow);
                        }
                    }
                }
            }
        }
    }
}

/// How many cells a write of `n` characters starting at column `x` lands
/// inside a row of the given width; the rest is clipped.
pub open spec fn written_count(width: int, x: int, n: int) -> int {
    if x >= width {
        0
    } else if x + n <= width {
        n
    } else {
        width - x
    }
}

/// The screen: a fixed-size grid of cells, one line per row, storing only
/// non-default content.
#[derive(Debug)]
pub struct Buffer {
    lines: Vec<Line>,
    width: usize,
}

impl Buffer {
    /// The fixed number of columns.
    pub closed spec fn spec_width(&self) -> usize {
        self.width
    }

    /// The fixed number of rows.
    pub closed spec fn spec_height(&self) -> int {
        self.lines@.len() as int
    }

    /// The row at index `y`.
    pub closed spec fn spec_line(&self, y: int) -> Line {
        self.lines@[y]
    }

    /// The cell shown at a coordinate; everything out of range shows the
    /// default cell.
    pub open spec fn cell_at(&self, x: int, y: int) -> Cell {
        if 0 <= y < self.spec_height() && 0 <= x < self.spec_width() {
            self.spec_line(y).at(x as u16)
        } else {
            Cell::spec_default()
        }
    }

    #[verifier::type_invariant]
    spec fn inv(self) -> bool {
        &&& self.width <= 0xFFFF
        &&& forall|i: int|
            0 <= i < self.lines@.len() ==> (#[trigger] self.lines@[i]).spec_width() == self.width
                as u16
    }

    /// A fresh buffer of the given dimensions, showing the default cell
    /// everywhere. Columns are addressed as 16-bit values, which bounds the
    /// width.
    pub fn new(width: usize, height: usize) -> (r: Self)
        requires
            width <= 0xFFFF,
        ensures
            r.spec_width() == width,
            r.spec_height() == height,
            forall|x: int, y: int| r.cell_at(x, y) == Cell::spec_default(),
    {
        let mut lines: Vec<Line> = Vec::new();
        let mut i: usize = 0;
        while i < height
            invariant
                i <= height,
                lines@.len() == i,
                forall|j: int|
                    0 <= j < i ==> (#[trigger] lines@[j]).spec_width() == width as u16,
                forall|j: int, c: u16|
                    0 <= j < i ==> (#[trigger] lines@[j].at(c)) == Cell::spec_default(),
            decreases height - i,
        {
            lines.push(Line::new(width as u16));
            i = i + 1;
        }
        Buffer { lines, width }
    }

    /// The cell at a coordinate; out-of-range coordinates return the
    /// default cell, never an error.
    pub fn get(&self, x: usize, y: usize) -> (r: Cell)
        ensures
            r == self.cell_at(x as int, y as int),
    {
        proof {
            use_type_invariant(self);
        }
        if y >= self.lines.len() || x >= self.width {
            return Cell::default();
        }
        let line = &self.lines[y];
        line.get(x as u16)
    }

    /// Write a cell at a coordinate. Out-of-range coordinates are a no-op;
    /// writing the default cell removes the coordinate from storage.
    pub fn set(&mut self, x: usize, y: usize, cell: Cell)
        ensures
            final(self).spec_width() == old(self).spec_width(),
            final(self).spec_height() == old(self).spec_height(),
            forall|cx: int, cy: int|
                !(cx == x as int && cy == y as int) ==> final(self).cell_at(cx, cy) == old(self).cell_at(cx, cy),
            x < old(self).spec_width() && (y as int) < old(self).spec_height() ==> final(self).cell_at(x as int, y as int) == if cell == Cell::spec_default() {
                Cell::spec_default()
            } else {
                cell
            },
            x >= old(self).spec_width() || (y as int) >= old(self).spec_height() ==> *final(self)
                == *old(self),
    {
        proof {
            use_type_invariant(&*self);
        }
        if y >= self.lines.len() || x >= self.width {
            return;
        }
        let mut lines: Vec<Line> = Vec::new();
        core::mem::swap(&mut lines, &mut self.lines);
        let mut line = lines.remove(y);
        line.set(x as u16, cell);
        let ghost nl = line;
        lines.insert(y, line);
        core::mem::swap(&mut lines, &mut self.lines);
        proof {
            assert(self.lines@ =~= old(self).lines@.update(y as int, nl));
        }
    }

    /// Write one cell per character of `s`, starting at column `x` of row
    /// `y` and advancing one column per character; whatever falls outside
    /// the row is clipped silently.
    pub fn write_str(&mut self, x: usize, y: usize, s: &str, attrs: CellAttributes)
        ensures
            final(self).spec_width() == old(self).spec_width(),
            final(self).spec_height() == old(self).spec_height(),
            forall|cx: int, cy: int|
                !(cy == y as int && x as int <= cx < x as int + written_count(
                    old(self).spec_width() as int,
                    x as int,
                    s@.len() as int,
                )) ==> final(self).cell_at(cx, cy) == old(self).cell_at(cx, cy),
            (y as int) < old(self).spec_height() ==> forall|i: int|
                0 <= i < written_count(old(self).spec_width() as int, x as int, s@.len() as int)
                    ==> final(self).cell_at(x as int + i, y as int) == cell_model(s@[i], attrs),
            (y as int) >= old(self).spec_height() ==> *final(self) == *old(self),
    {
        proof {
            use_type_invariant(&*self);
        }
        if y >= self.lines.len() {
            return;
        }
        if x >= self.width {
            return;
        }
        let n = s.unicode_len();
        let budget = self.width - x;
        let ghost w = old(self).spec_width() as int;
        let mut lines: Vec<Line> = Vec::new();
        core::mem::swap(&mut lines, &mut self.lines);
        let mut line = lines.remove(y);
        let ghost line0 = line;
        let mut j: usize = 0;
        while j < n && j < budget
            invariant
                x + budget == w,
                x < w,
                w <= 0xFFFF,
                n == s@.len(),
                j <= n,
                j <= budget,
                line.spec_width() == line0.spec_width(),
                line.spec_width() as int == w,
                forall|c: u16|
                    !((x as int) <= (c as int) && (c as int) < (x as int) + (j as int))
                        ==> line.at(c) == line0.at(c),
                forall|i: int|
                    0 <= i < j ==> line.at((x + i) as u16) == cell_model(s@[i], attrs),
            decreases n - j,
        {
            let ch = s.get_char(j);
            line.set((x + j) as u16, Cell::new(ch, attrs));
            proof {
                assert(((x + j) as u16) as int == (x as int) + (j as int));
                assert forall|i: int| 0 <= i < j implies #[trigger] ((x + i) as u16) != ((x + j)
                    as u16) by {
                    assert((x as int) + i < w);
                    assert(((x + i) as u16) as int == (x as int) + i);
                }
            }
            j = j + 1;
        }
        let ghost nl = line;
        lines.insert(y, line);
        core::mem::swap(&mut lines, &mut self.lines);
        proof {
            assert(j == written_count(w, x as int, n as int));
            assert(self.lines@ =~= old(self).lines@.update(y as int, nl));
        }
    }
}

} // verus!

