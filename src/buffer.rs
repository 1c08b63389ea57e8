use vstd::prelude::*;

use crate::geometry::Rect;

verus! {

/// A terminal colour: the reset colour, one of the sixteen named colours,
/// an entry of the 256-colour palette, or a true colour.
#[derive(Clone, Copy, Debug, PartialEq, Eq, Structural)]
pub enum Color {
    Reset,
    Named(u8),
    Indexed(u8),
    Rgb(u8, u8, u8),
}

/// The mathematical content of a cell.
pub struct CellView {
    pub symbol: Seq<char>,
    pub fg: Color,
    pub bg: Color,
    pub underline_color: Color,
    pub modifier: u16,
    pub skip: bool,
}

/// One position of a frame: the grapheme shown, its style, and whether the
/// ordinary backend must leave the position alone.
#[derive(Debug)]
pub struct Cell {
    pub symbol: String,
    pub fg: Color,
    pub bg: Color,
    pub underline_color: Color,
    pub modifier: u16,
    pub skip: bool,
}

/// The content of a fresh cell: a space in the reset style, not skipped.
pub open spec fn blank_view() -> CellView {
    CellView {
        symbol: seq![' '],
        fg: Color::Reset,
        bg: Color::Reset,
        underline_color: Color::Reset,
        modifier: 0,
        skip: false,
    }
}

impl View for Cell {
    type V = CellView;

    open spec fn view(&self) -> CellView {
        CellView {
            symbol: self.symbol@,
            fg: self.fg,
            bg: self.bg,
            underline_color: self.underline_color,
            modifier: self.modifier,
            skip: self.skip,
        }
    }
}

impl Cell {
    /// A space in the reset style, not skipped.
    pub fn blank() -> (r: Cell)
        ensures
            r@ == blank_view(),
    {
        let symbol = " ".to_owned();
        proof {
            reveal_strlit(" ");
            assert(symbol@ =~= seq![' ']);
        }
        Cell {
            symbol,
            fg: Color::Reset,
            bg: Color::Reset,
            underline_color: Color::Reset,
            modifier: 0,
            skip: false,
        }
    }

    /// A copy with the same content.
    pub fn duplicate(&self) -> (r: Cell)
        ensures
            r@ == self@,
    {
        Cell {
            symbol: self.symbol.clone(),
            fg: self.fg,
            bg: self.bg,
            underline_color: self.underline_color,
            modifier: self.modifier,
            skip: self.skip,
        }
    }

    pub fn set_skip(&mut self, skip: bool)
        ensures
            final(self)@ == (CellView { skip, ..old(self)@ }),
    {
        self.skip = skip;
    }

    /// The two cells have the same symbol, style and skip marker.
    pub fn same(&self, other: &Cell) -> (r: bool)
        ensures
            r == (self@ == other@),
    {
        self.symbol == other.symbol && self.fg == other.fg && self.bg == other.bg
            && self.underline_color == other.underline_color && self.modifier == other.modifier
            && self.skip == other.skip
    }
}

impl PartialEq for Cell {
    fn eq(&self, other: &Cell) -> (r: bool)
        ensures
            r == (self@ == other@),
    {
        self.same(other)
    }
}

impl vstd::std_specs::cmp::PartialEqSpecImpl for Cell {
    open spec fn obeys_eq_spec() -> bool {
        true
    }

    open spec fn eq_spec(&self, other: &Cell) -> bool {
        self@ == other@
    }
}


/// Column of the cell stored at index `i` of a buffer over `area`.
pub open spec fn col_of(area: Rect, i: int) -> u16 {
    (area.x + i % (area.width as int)) as u16
}

/// Row of the cell stored at index `i` of a buffer over `area`.
pub open spec fn row_of(area: Rect, i: int) -> u16 {
    (area.y + i / (area.width as int)) as u16
}

/// The writes that turn `prev` into `next` among the first `n` cells: each
/// cell of `next` that differs from `prev` and is not marked skip, with its
/// position, in index order.
pub open spec fn diff_upto(area: Rect, prev: Seq<CellView>, next: Seq<CellView>, n: nat) -> Seq<
    (u16, u16, CellView),
>
    decreases n,
{
    if n == 0 {
        seq![]
    } else {
        let i = n - 1;
        let rest = diff_upto(area, prev, next, (n - 1) as nat);
        if !next[i].skip && next[i] != prev[i] {
            rest.push((col_of(area, i), row_of(area, i), next[i]))
        } else {
            rest
        }
    }
}

/// The content of a list of positioned cells.
pub open spec fn writes_view(w: Seq<(u16, u16, Cell)>) -> Seq<(u16, u16, CellView)> {
    w.map_values(|e: (u16, u16, Cell)| (e.0, e.1, e.2@))
}

/// A rectangular grid of cells, stored row by row.
#[derive(Debug)]
pub struct Buffer {
    pub area: Rect,
    pub content: Vec<Cell>,
}

impl Buffer {
    /// One cell per position of the area, and every position addressable.
    pub open spec fn wf(&self) -> bool {
        self.area.fits() && self.content.len() == self.area.size()
    }

    /// The cells, row by row.
    pub open spec fn cells(&self) -> Seq<CellView> {
        self.content@.map_values(|c: Cell| c@)
    }

    /// Index of the position `(x, y)` in the row-by-row storage.
    pub open spec fn index_spec(area: Rect, x: int, y: int) -> int {
        (y - area.y) * area.width + (x - area.x)
    }

    /// A buffer over `area` whose every cell is blank.
    pub fn empty(area: Rect) -> (r: Buffer)
        requires
            area.fits(),
        ensures
            r.wf(),
            r.area == area,
            r.cells() == Seq::new(area.size(), |i: int| blank_view()),
    {
        let n = area.area();
        let mut content: Vec<Cell> = Vec::new();
        let mut i: usize = 0;
        while i < n
            invariant
                n == area.size(),
                i <= n,
                content.len() == i,
                forall|k: int| 0 <= k < i ==> (#[trigger] content@[k])@ == blank_view(),
            decreases n - i,
        {
            content.push(Cell::blank());
            i = i + 1;
        }
        let r = Buffer { area, content };
        assert(r.cells() =~= Seq::new(area.size(), |i: int| blank_view()));
        r
    }

    /// The position of the cell stored at index `i`.
    pub fn pos_of(&self, i: usize) -> (r: (u16, u16))
        requires
            self.wf(),
            i < self.content.len(),
        ensures
            r == (col_of(self.area, i as int), row_of(self.area, i as int)),
            self.area.contains(r.0 as int, r.1 as int),
    {
        let w = self.area.width as usize;
        let h = self.area.height as usize;
        assert(w > 0) by (nonlinear_arith)
            requires
                i < w * h,
        ;
        assert(i % w < w && i / w < h) by (nonlinear_arith)
            requires
                i < w * h,
                w > 0,
        ;
        let dx = (i % w) as u16;
        let dy = (i / w) as u16;
        (self.area.x + dx, self.area.y + dy)
    }

    /// The index at which the cell of position `(x, y)` is stored.
    pub fn index_of(&self, x: u16, y: u16) -> (r: usize)
        requires
            self.wf(),
            self.area.contains(x as int, y as int),
        ensures
            r == Self::index_spec(self.area, x as int, y as int),
            r < self.content.len(),
            col_of(self.area, r as int) == x,
            row_of(self.area, r as int) == y,
    {
        let w = self.area.width as usize;
        let h = self.area.height as usize;
        let dx = (x - self.area.x) as usize;
        let dy = (y - self.area.y) as usize;
        proof {
            let (wi, hi, xi, yi) = (w as int, h as int, dx as int, dy as int);
            assert(yi * wi + xi < wi * hi) by (nonlinear_arith)
                requires
                    0 <= xi < wi,
                    0 <= yi < hi,
            ;
            vstd::arithmetic::div_mod::lemma_fundamental_div_mod_converse(
                yi * wi + xi,
                wi,
                yi,
                xi,
            );
        }
        dy * w + dx
    }

    /// The cell at position `(x, y)`.
    pub fn get(&self, x: u16, y: u16) -> (r: &Cell)
        requires
            self.wf(),
            self.area.contains(x as int, y as int),
        ensures
            r@ == self.cells()[Self::index_spec(self.area, x as int, y as int)],
    {
        let i = self.index_of(x, y);
        &self.content[i]
    }

    /// The writes that bring a screen showing `self` to show `next`: every
    /// cell of `next` that differs from the cell of `self` at the same index
    /// and is not marked skip, with its position, in row-by-row order.
    pub fn diff(&self, next: &Buffer) -> (r: Vec<(u16, u16, Cell)>)
        requires
            self.wf(),
            next.wf(),
            next.area == self.area,
        ensures
            writes_view(r@) == diff_upto(self.area, self.cells(), next.cells(), self.cells().len()),
    {
        let n = self.content.len();
        let mut r: Vec<(u16, u16, Cell)> = Vec::new();
        let mut i: usize = 0;
        while i < n
            invariant
                self.wf(),
                next.wf(),
                next.area == self.area,
                n == self.content.len(),
                i <= n,
                writes_view(r@) == diff_upto(self.area, self.cells(), next.cells(), i as nat),
            decreases n - i,
        {
            let current = &next.content[i];
            let previous = &self.content[i];
            let ghost before = r@;
            if !current.skip && !current.same(previous) {
                let (x, y) = self.pos_of(i);
                r.push((x, y, current.duplicate()));
                assert(writes_view(r@) =~= writes_view(before).push((x, y, current@)));
            }
            i = i + 1;
        }
        r
    }
}

} // verus!
