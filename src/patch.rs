use vstd::prelude::*;

use crate::buffer::{blank_view, col_of, diff_upto, row_of, writes_view, Buffer, Cell, CellView};

verus! {

/// The inverted-mask cell for a cell of a completed frame: a skip cell is
/// kept as it is but no longer skipped; any other cell becomes a blank cell
/// that is skipped.
pub open spec fn mask_cell(c: CellView) -> CellView {
    if c.skip {
        CellView { skip: false, ..c }
    } else {
        CellView { skip: true, ..blank_view() }
    }
}

/// The inverted mask of a whole frame, cell by cell.
pub open spec fn mask_of(cells: Seq<CellView>) -> Seq<CellView> {
    cells.map_values(|c: CellView| mask_cell(c))
}

/// The skip cells among the first `n` cells of a frame over `area`, each at
/// its position with its symbol and style, unmarked, in row-by-row order.
pub open spec fn skip_writes(area: crate::geometry::Rect, cells: Seq<CellView>, n: nat) -> Seq<
    (u16, u16, CellView),
>
    decreases n,
{
    if n == 0 {
        seq![]
    } else {
        let i = n - 1;
        let rest = skip_writes(area, cells, (n - 1) as nat);
        if cells[i].skip {
            rest.push((col_of(area, i), row_of(area, i), CellView { skip: false, ..cells[i] }))
        } else {
            rest
        }
    }
}

/// The patch pass of a frame: the skip cells that must be written again.
pub open spec fn patch_set(frame: Buffer) -> Seq<(u16, u16, CellView)> {
    skip_writes(frame.area, frame.cells(), frame.cells().len())
}

/// Builds the inverted mask of a completed frame: a buffer over the same area
/// in which each skip cell of the frame is copied without its skip marker and
/// every other position holds a blank cell marked skip.
pub fn inverted_mask(frame: &Buffer) -> (r: Buffer)
    requires
        frame.wf(),
    ensures
        r.wf(),
        r.area == frame.area,
        r.cells() == mask_of(frame.cells()),
{
    let n = frame.content.len();
    let mut content: Vec<Cell> = Vec::new();
    let mut i: usize = 0;
    while i < n
        invariant
            frame.wf(),
            n == frame.content.len(),
            i <= n,
            content.len() == i,
            forall|k: int| 0 <= k < i ==> (#[trigger] content@[k])@ == mask_cell(frame.cells()[k]),
        decreases n - i,
    {
        let cell = &frame.content[i];
        let mut masked = if cell.skip {
            cell.duplicate()
        } else {
            Cell::blank()
        };
        masked.set_skip(!cell.skip);
        content.push(masked);
        i = i + 1;
    }
    let r = Buffer { area: frame.area, content };
    assert(r.cells() =~= mask_of(frame.cells()));
    r
}

proof fn lemma_diff_of_mask(frame: Buffer, n: nat)
    requires
        n <= frame.cells().len(),
    ensures
        diff_upto(frame.area, frame.cells(), mask_of(frame.cells()), n) == skip_writes(
            frame.area,
            frame.cells(),
            n,
        ),
    decreases n,
{
    if n > 0 {
        lemma_diff_of_mask(frame, (n - 1) as nat);
        let c = frame.cells()[n - 1];
        if !c.skip {
            assert(mask_cell(c).skip);
        } else {
            assert(mask_cell(c) != c);
        }
    }
}

/// Computes the corrective writes for a completed frame: the diff of the
/// frame against its inverted mask, which is exactly its skip cells, each at
/// its position with its symbol and style and without the skip marker.
pub fn patch_cells(frame: &Buffer) -> (r: Vec<(u16, u16, Cell)>)
    requires
        frame.wf(),
    ensures
        writes_view(r@) == patch_set(*frame),
        writes_view(r@) == diff_upto(
            frame.area,
            frame.cells(),
            mask_of(frame.cells()),
            frame.cells().len(),
        ),
{
    let mask = inverted_mask(frame);
    let r = frame.diff(&mask);
    proof {
        lemma_diff_of_mask(*frame, frame.cells().len());
    }
    r
}

proof fn lemma_skip_writes_contains(
    area: crate::geometry::Rect,
    cells: Seq<CellView>,
    n: nat,
    i: int,
)
    requires
        0 <= i < n <= cells.len(),
        cells[i].skip,
    ensures
        skip_writes(area, cells, n).contains(
            (col_of(area, i), row_of(area, i), CellView { skip: false, ..cells[i] }),
        ),
    decreases n,
{
    let e = (col_of(area, i), row_of(area, i), CellView { skip: false, ..cells[i] });
    let rest = skip_writes(area, cells, (n - 1) as nat);
    if i == n - 1 {
        assert(skip_writes(area, cells, n).last() == e);
    } else {
        lemma_skip_writes_contains(area, cells, (n - 1) as nat, i);
        let k = choose|k: int| 0 <= k < rest.len() && rest[k] == e;
        if cells[n - 1].skip {
            assert(skip_writes(area, cells, n)[k] == e);
        }
    }
}

proof fn lemma_skip_writes_only_skip(
    area: crate::geometry::Rect,
    cells: Seq<CellView>,
    n: nat,
    k: int,
)
    requires
        n <= cells.len(),
        0 <= k < skip_writes(area, cells, n).len(),
    ensures
        exists|i: int|
            0 <= i < n && cells[i].skip && skip_writes(area, cells, n)[k] == (
                col_of(area, i),
                row_of(area, i),
                CellView { skip: false, ..cells[i] },
            ),
    decreases n,
{
    let rest = skip_writes(area, cells, (n - 1) as nat);
    if k < rest.len() {
        lemma_skip_writes_only_skip(area, cells, (n - 1) as nat, k);
    } else {
        let i = n - 1;
        assert(cells[i].skip);
        assert(skip_writes(area, cells, n)[k] == (
            col_of(area, i),
            row_of(area, i),
            CellView { skip: false, ..cells[i] },
        ));
    }
}

/// Every skip cell of a completed frame is among the corrective writes, at
/// its own position and with its symbol and style unchanged.
pub proof fn lemma_patch_covers_skip_cells(frame: Buffer, i: int)
    requires
        frame.wf(),
        0 <= i < frame.cells().len(),
        frame.cells()[i].skip,
    ensures
        exists|k: int|
            0 <= k < patch_set(frame).len() && #[trigger] patch_set(frame)[k] == (
                col_of(frame.area, i),
                row_of(frame.area, i),
                CellView { skip: false, ..frame.cells()[i] },
            ),
{
    let e = (col_of(frame.area, i), row_of(frame.area, i), CellView { skip: false, ..frame.cells()[i] });
    lemma_skip_writes_contains(frame.area, frame.cells(), frame.cells().len(), i);
    let k = choose|k: int| 0 <= k < patch_set(frame).len() && patch_set(frame)[k] == e;
    assert(patch_set(frame)[k] == e);
}

/// Every corrective write is a skip cell of the completed frame, at its own
/// position and with its symbol and style unchanged.
pub proof fn lemma_patch_only_skip_cells(frame: Buffer, k: int)
    requires
        frame.wf(),
        0 <= k < patch_set(frame).len(),
    ensures
        exists|i: int|
            0 <= i < frame.cells().len() && frame.cells()[i].skip && patch_set(frame)[k] == (
                col_of(frame.area, i),
                row_of(frame.area, i),
                CellView { skip: false, ..frame.cells()[i] },
            ),
{
    lemma_skip_writes_only_skip(frame.area, frame.cells(), frame.cells().len(), k);
}

/// Inverting the mask twice gives back the frame's own skip markers.
pub proof fn lemma_mask_involutive_on_skip(cells: Seq<CellView>)
    ensures
        mask_of(mask_of(cells)).len() == cells.len(),
        forall|i: int|
            0 <= i < cells.len() ==> (#[trigger] mask_of(mask_of(cells))[i]).skip == cells[i].skip,
{
}

} // verus!
