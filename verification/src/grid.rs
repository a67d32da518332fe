use vstd::prelude::*;

use crate::piece::Tetromino;
use crate::piece::lemma_shape_offsets_bounded;
use crate::piece::shape_offset;

verus! {

/// The playing grid: a `width * height` board of occupancy markers,
/// stored row-major (index `y * width + x`). A zero cell is empty.
#[derive(Debug)]
pub struct Field {
    pub width: u32,
    pub height: u32,
    pub cells: Vec<u8>,
}

impl Clone for Field {
    /// Cloning yields a grid with the same dimensions and cells.
    fn clone(&self) -> (r: Field)
        ensures
            r.width == self.width,
            r.height == self.height,
            r.cells@ == self.cells@,
    {
        let cells = self.cells.clone();
        proof {
            assert forall|i: int| 0 <= i < self.cells@.len() implies cells@[i]
                == self.cells@[i] by {
                assert(cloned::<u8>(self.cells@[i], cells@[i]));
            }
            assert(cells@ =~= self.cells@);
        }
        Field { width: self.width, height: self.height, cells }
    }
}

impl Field {
    /// Well-formed grids have positive sides, sides small enough for
    /// `i32` coordinate arithmetic, a cell count that fits in `u32`,
    /// and exactly one marker per cell.
    pub open spec fn wf(self) -> bool {
        &&& 1 <= self.width <= 0x4000_0000
        &&& 1 <= self.height <= 0x4000_0000
        &&& (self.width as int) * (self.height as int) < 0x1_0000_0000
        &&& self.cells@.len() == (self.width as int) * (self.height as int)
    }

    /// A coordinate is occupied when it lies outside the grid (walls,
    /// floor and ceiling) or its cell holds a non-zero marker.
    pub open spec fn filled(self, x: int, y: int) -> bool {
        ||| x < 0
        ||| y < 0
        ||| x >= self.width as int
        ||| y >= self.height as int
        ||| self.cells@[y * (self.width as int) + x] != 0
    }

    /// Some cell of the piece sits on an occupied coordinate.
    pub open spec fn collides(self, t: Tetromino) -> bool {
        exists|i: int| 0 <= i < 4 && self.filled(t.block(i).0, t.block(i).1)
    }

    /// Every cell of the grid is empty.
    pub open spec fn all_empty(self) -> bool {
        forall|i: int| 0 <= i < self.cells@.len() ==> self.cells@[i] == 0
    }
}

/// A cell index is hit by one of the piece's first `k` blocks (only
/// in-bounds blocks are written; the rest fall on walls or floor).
pub open spec fn covered_by_prefix(t: Tetromino, width: int, height: int, idx: int, k: int) -> bool {
    exists|j: int|
        0 <= j < k && {
            let (bx, by) = #[trigger] t.block(j);
            0 <= bx < width && 0 <= by < height && idx == by * width + bx
        }
}

/// The grid cells with the piece's in-bounds cells marked occupied.
pub open spec fn spec_fixed_cells(f: Field, t: Tetromino) -> Seq<u8> {
    Seq::new(
        f.cells@.len(),
        |i: int|
            if covered_by_prefix(t, f.width as int, f.height as int, i, 4) {
                1u8
            } else {
                f.cells@[i]
            },
    )
}

/// A fresh, fully empty grid of the given dimensions.
pub fn init_field(width: u32, height: u32) -> (r: Field)
    requires
        1 <= width <= 0x4000_0000,
        1 <= height <= 0x4000_0000,
        (width as int) * (height as int) < 0x1_0000_0000,
    ensures
        r.wf(),
        r.width == width,
        r.height == height,
        r.all_empty(),
{
    let n = (width * height) as usize;
    let mut cells: Vec<u8> = Vec::new();
    let mut i: usize = 0;
    while i < n
        invariant
            i <= n,
            cells@.len() == i,
            forall|j: int| 0 <= j < i ==> cells@[j] == 0,
        decreases n - i,
    {
        cells.push(0);
        i = i + 1;
    }
    Field { width, height, cells }
}

/// Whether coordinate `(x, y)` is reported occupied: any coordinate
/// outside the grid counts as occupied, as does a non-empty cell.
pub fn is_filled(x: i32, y: i32, field: &Field) -> (r: bool)
    requires
        field.wf(),
    ensures
        r == field.filled(x as int, y as int),
        (x < 0 || y < 0 || x as int >= field.width as int || y as int >= field.height as int)
            ==> r,
{
    if x < 0 || y < 0 {
        return true;
    }
    let xu = x as u32;
    let yu = y as u32;
    if xu >= field.width || yu >= field.height {
        return true;
    }
    assert((yu as int) * (field.width as int) + (xu as int) < (field.width as int) * (
    field.height as int)) by (nonlinear_arith)
        requires
            yu as int <= field.height as int - 1,
            xu as int <= field.width as int - 1,
            field.width >= 1,
            field.height >= 1,
    ;
    let idx = (yu * field.width + xu) as usize;
    field.cells[idx] != 0
}

/// Whether the piece overlaps an occupied coordinate anywhere.
pub fn check_collision(field: &Field, tetromino: &Tetromino) -> (r: bool)
    requires
        field.wf(),
        tetromino.coords_ok(),
    ensures
        r == field.collides(*tetromino),
{
    let mut i: usize = 0;
    while i < 4
        invariant
            field.wf(),
            tetromino.coords_ok(),
            i <= 4,
            forall|j: int|
                0 <= j < i ==> !field.filled(
                    (#[trigger] tetromino.block(j)).0,
                    tetromino.block(j).1,
                ),
        decreases 4 - i,
    {
        proof {
            lemma_shape_offsets_bounded(tetromino.kind, tetromino.rot());
        }
        let (dx, dy) = shape_offset(tetromino.kind, tetromino.rotation, i);
        assert(tetromino.block(i as int) == (tetromino.x + dx as int, tetromino.y + dy as int));
        if is_filled(tetromino.x + dx, tetromino.y + dy, field) {
            assert(field.filled(tetromino.block(i as int).0, tetromino.block(i as int).1));
            return true;
        }
        i = i + 1;
    }
    false
}

/// Fix the piece permanently into the grid: every in-bounds cell of the
/// piece is marked occupied; all other cells keep their marker.
pub fn fix_tetromino(field: &mut Field, tetromino: &Tetromino)
    requires
        old(field).wf(),
        tetromino.coords_ok(),
    ensures
        final(field).wf(),
        final(field).width == old(field).width,
        final(field).height == old(field).height,
        forall|idx: int|
            0 <= idx < old(field).cells@.len() ==> final(field).cells@[idx] == (
            if covered_by_prefix(
                *tetromino,
                old(field).width as int,
                old(field).height as int,
                idx,
                4,
            ) {
                1u8
            } else {
                old(field).cells@[idx]
            }),
{
    let w = field.width;
    let h = field.height;
    let ghost w_int = field.width as int;
    let ghost h_int = field.height as int;
    let ghost cells0 = field.cells@;
    let mut i: usize = 0;
    while i < 4
        invariant
            field.wf(),
            tetromino.coords_ok(),
            field.width == w,
            field.height == h,
            w_int == w as int,
            h_int == h as int,
            cells0.len() == field.cells@.len(),
            i <= 4,
            forall|idx: int|
                0 <= idx < cells0.len() ==> field.cells@[idx] == (if covered_by_prefix(
                    *tetromino,
                    w_int,
                    h_int,
                    idx,
                    i as int,
                ) {
                    1u8
                } else {
                    cells0[idx]
                }),
        decreases 4 - i,
    {
        proof {
            lemma_shape_offsets_bounded(tetromino.kind, tetromino.rot());
        }
        let (dx, dy) = shape_offset(tetromino.kind, tetromino.rotation, i);
        let bx = tetromino.x + dx;
        let by = tetromino.y + dy;
        assert(tetromino.block(i as int) == (bx as int, by as int));
        if bx >= 0 && by >= 0 && (bx as u32) < w && (by as u32) < h {
            assert(0 <= (by as int) * w_int + (bx as int) && (by as int) * w_int + (bx as int)
                < w_int * h_int) by (nonlinear_arith)
                requires
                    0 <= by as int <= h_int - 1,
                    0 <= bx as int <= w_int - 1,
                    w_int >= 1,
                    h_int >= 1,
            ;
            let idx = ((by as u32) * w + (bx as u32)) as usize;
            field.cells[idx] = 1;
            proof {
                assert forall|c: int| 0 <= c < cells0.len() implies field.cells@[c] == (
                if covered_by_prefix(*tetromino, w_int, h_int, c, i as int + 1) {
                    1u8
                } else {
                    cells0[c]
                }) by {
                    if c == idx as int {
                        assert(covered_by_prefix(*tetromino, w_int, h_int, c, i as int + 1));
                    } else {
                        if covered_by_prefix(*tetromino, w_int, h_int, c, i as int + 1) {
                            let j = choose|j: int|
                                0 <= j < i as int + 1 && {
                                    let (jx, jy) = #[trigger] tetromino.block(j);
                                    0 <= jx < w_int && 0 <= jy < h_int && c == jy * w_int + jx
                                };
                            assert(j < i as int);
                            assert(covered_by_prefix(*tetromino, w_int, h_int, c, i as int));
                        }
                    }
                }
            }
        } else {
            proof {
                assert forall|c: int| 0 <= c < cells0.len() implies field.cells@[c] == (
                if covered_by_prefix(*tetromino, w_int, h_int, c, i as int + 1) {
                    1u8
                } else {
                    cells0[c]
                }) by {
                    if covered_by_prefix(*tetromino, w_int, h_int, c, i as int + 1) {
                        let j = choose|j: int|
                            0 <= j < i as int + 1 && {
                                let (jx, jy) = #[trigger] tetromino.block(j);
                                0 <= jx < w_int && 0 <= jy < h_int && c == jy * w_int + jx
                            };
                        assert(j < i as int);
                        assert(covered_by_prefix(*tetromino, w_int, h_int, c, i as int));
                    }
                }
            }
        }
        i = i + 1;
    }
}

/// The marker of cell `(x, y)` of a row-major grid `width` wide.
pub open spec fn cell_at(cells: Seq<u8>, width: int, x: int, y: int) -> u8 {
    cells[y * width + x]
}

/// Whether row `r` of `cells` (a row-major grid `width` wide) is full.
pub open spec fn row_full(cells: Seq<u8>, width: int, r: int) -> bool {
    forall|x: int| 0 <= x < width ==> #[trigger] cell_at(cells, width, x, r) != 0
}

/// How many of the first `upto` rows are full.
pub open spec fn full_rows_up_to(cells: Seq<u8>, width: int, upto: int) -> int
    decreases upto,
{
    if upto <= 0 {
        0
    } else {
        full_rows_up_to(cells, width, upto - 1) + (if row_full(cells, width, upto - 1) {
            1int
        } else {
            0int
        })
    }
}

/// The non-full rows among the first `upto`, concatenated in order.
pub open spec fn kept_rows_up_to(cells: Seq<u8>, width: int, upto: int) -> Seq<u8>
    decreases upto,
{
    if upto <= 0 {
        Seq::empty()
    } else {
        kept_rows_up_to(cells, width, upto - 1) + (if row_full(cells, width, upto - 1) {
            Seq::empty()
        } else {
            cells.subrange((upto - 1) * width, upto * width)
        })
    }
}

/// At most `upto` of the first `upto` rows are full.
pub proof fn lemma_full_rows_bounded(cells: Seq<u8>, width: int, upto: int)
    ensures
        0 <= full_rows_up_to(cells, width, upto) <= (if upto >= 0 {
            upto
        } else {
            0
        }),
    decreases (if upto >= 0 { upto } else { 0 }),
{
    if upto > 0 {
        lemma_full_rows_bounded(cells, width, upto - 1);
    }
}

/// The kept rows hold exactly the cells of the non-full rows.
pub proof fn lemma_kept_rows_len(cells: Seq<u8>, width: int, upto: int)
    requires
        width >= 0,
        upto >= 0,
        cells.len() >= width * upto,
    ensures
        kept_rows_up_to(cells, width, upto).len() == (upto - full_rows_up_to(
            cells,
            width,
            upto,
        )) * width,
    decreases upto,
{
    if upto > 0 {
        assert(width * (upto - 1) <= width * upto && 0 <= width * (upto - 1) && (upto - 1) * width
            == width * (upto - 1) && upto * width == width * upto && width * upto == width * (upto
            - 1) + width) by (nonlinear_arith)
            requires
                width >= 0,
                upto >= 1,
        ;
        lemma_kept_rows_len(cells, width, upto - 1);
        lemma_full_rows_bounded(cells, width, upto - 1);
        let f1 = full_rows_up_to(cells, width, upto - 1);
        if row_full(cells, width, upto - 1) {
            assert((upto - (f1 + 1)) * width == (upto - 1 - f1) * width) by (nonlinear_arith);
        } else {
            assert(cells.subrange((upto - 1) * width, upto * width).len() == width);
            assert((upto - f1) * width == (upto - 1 - f1) * width + width) by (nonlinear_arith);
        }
    }
}

/// Remove every full row, shift the rows above each downward, and refill
/// the top with empty rows; returns how many rows were cleared.
pub fn clear_lines(field: &mut Field) -> (cleared: u32)
    requires
        old(field).wf(),
    ensures
        final(field).wf(),
        final(field).width == old(field).width,
        final(field).height == old(field).height,
        cleared as int == full_rows_up_to(
            old(field).cells@,
            old(field).width as int,
            old(field).height as int,
        ),
        final(field).cells@ == Seq::new(
            ((cleared as int) * (old(field).width as int)) as nat,
            |i: int| 0u8,
        ) + kept_rows_up_to(old(field).cells@, old(field).width as int, old(field).height as int),
{
    let w = field.width;
    let h = field.height;
    let ghost w_int = w as int;
    let ghost h_int = h as int;
    let ghost cells0 = field.cells@;
    let mut kept: Vec<u8> = Vec::new();
    let mut cleared: u32 = 0;
    let mut row: u32 = 0;
    while row < h
        invariant
            field.wf(),
            field.width == w,
            field.height == h,
            w_int == w as int,
            h_int == h as int,
            cells0 == field.cells@,
            row <= h,
            cleared <= row,
            cleared as int == full_rows_up_to(cells0, w_int, row as int),
            kept@ == kept_rows_up_to(cells0, w_int, row as int),
        decreases h - row,
    {
        // decide whether this row is full
        let mut x: u32 = 0;
        let mut full: bool = true;
        while x < w
            invariant
                field.wf(),
                field.width == w,
                field.height == h,
                w_int == w as int,
                h_int == h as int,
                cells0 == field.cells@,
                row < h,
                x <= w,
                full == (forall|j: int|
                    0 <= j < x as int ==> #[trigger] cell_at(cells0, w_int, j, row as int) != 0),
            decreases w - x,
        {
            assert(0 <= (row as int) * w_int + (x as int) && (row as int) * w_int + (x as int)
                < w_int * h_int) by (nonlinear_arith)
                requires
                    0 <= row as int <= h_int - 1,
                    0 <= x as int <= w_int - 1,
                    w_int >= 1,
                    h_int >= 1,
            ;
            let idx = (row * w + x) as usize;
            let c = field.cells[idx];
            assert(cell_at(cells0, w_int, x as int, row as int) == c);
            if c == 0 {
                full = false;
            }
            x = x + 1;
        }
        assert(full == row_full(cells0, w_int, row as int));
        if full {
            cleared = cleared + 1;
        } else {
            // copy the row into the kept cells
            let ghost kept_before = kept@;
            proof {
                assert(0 <= (row as int) * w_int && (row as int) * w_int <= cells0.len()) by (
                nonlinear_arith)
                    requires
                        0 <= row as int <= h_int - 1,
                        w_int >= 1,
                        h_int >= 1,
                        cells0.len() == w_int * h_int,
                ;
                assert(kept@ =~= kept_before + cells0.subrange(
                    row as int * w_int,
                    row as int * w_int,
                ));
            }
            let mut x: u32 = 0;
            while x < w
                invariant
                    field.wf(),
                    field.width == w,
                    field.height == h,
                    w_int == w as int,
                    h_int == h as int,
                    cells0 == field.cells@,
                    row < h,
                    x <= w,
                    kept@ == kept_before + cells0.subrange(
                        row as int * w_int,
                        row as int * w_int + x as int,
                    ),
                decreases w - x,
            {
                assert(0 <= (row as int) * w_int + (x as int) && (row as int) * w_int + (x as int)
                    < w_int * h_int) by (nonlinear_arith)
                    requires
                        0 <= row as int <= h_int - 1,
                        0 <= x as int <= w_int - 1,
                        w_int >= 1,
                        h_int >= 1,
                ;
                let idx = (row * w + x) as usize;
                let c = field.cells[idx];
                kept.push(c);
                proof {
                    assert(kept@ =~= kept_before + cells0.subrange(
                        row as int * w_int,
                        row as int * w_int + x as int + 1,
                    ));
                }
                x = x + 1;
            }
            proof {
                assert((row as int) * w_int + w_int == (row as int + 1) * w_int) by (
                nonlinear_arith);
                assert(kept@ =~= kept_rows_up_to(cells0, w_int, row as int + 1));
            }
        }
        row = row + 1;
    }
    // assemble the new grid: `cleared` empty rows on top, kept rows below
    proof {
        lemma_full_rows_bounded(cells0, w_int, h_int);
        assert(0 <= (cleared as int) * w_int && (cleared as int) * w_int <= h_int * w_int && h_int
            * w_int < 0x1_0000_0000) by (nonlinear_arith)
            requires
                0 <= cleared as int <= h_int,
                w_int >= 1,
                w_int * h_int < 0x1_0000_0000,
        ;
    }
    let zero_count = (cleared * w) as usize;
    let mut new_cells: Vec<u8> = Vec::new();
    let mut k: usize = 0;
    while k < zero_count
        invariant
            k <= zero_count,
            new_cells@ =~= Seq::new(k as nat, |i: int| 0u8),
        decreases zero_count - k,
    {
        new_cells.push(0);
        proof {
            assert(new_cells@ =~= Seq::new(k as nat + 1, |i: int| 0u8));
        }
        k = k + 1;
    }
    new_cells.append(&mut kept);
    proof {
        lemma_kept_rows_len(cells0, w_int, h_int);
        assert(((cleared as int) * w_int) + (h_int - cleared as int) * w_int == h_int * w_int) by (
        nonlinear_arith);
    }
    field.cells = new_cells;
    cleared
}

/// When none of the first `upto` rows is full, clearing counts nothing
/// and keeps those rows verbatim.
pub proof fn lemma_kept_identity(cells: Seq<u8>, width: int, upto: int)
    requires
        width >= 1,
        upto >= 0,
        cells.len() >= width * upto,
        forall|r: int| 0 <= r < upto ==> !row_full(cells, width, r),
    ensures
        full_rows_up_to(cells, width, upto) == 0,
        kept_rows_up_to(cells, width, upto) == cells.subrange(0, width * upto),
    decreases upto,
{
    if upto == 0 {
        assert(width * upto == 0) by (nonlinear_arith)
            requires
                upto == 0,
        ;
        assert(kept_rows_up_to(cells, width, upto) =~= cells.subrange(0, width * upto));
    } else {
        assert(width * (upto - 1) < width * upto && width * upto == width * (upto - 1) + width && (
        upto - 1) * width == width * (upto - 1) && upto * width == width * upto) by (
        nonlinear_arith)
            requires
                width >= 1,
                upto >= 1,
        ;
        lemma_kept_identity(cells, width, upto - 1);
        assert(!row_full(cells, width, upto - 1));
        assert(kept_rows_up_to(cells, width, upto) =~= cells.subrange(0, width * upto));
    }
}

/// Clearing a fully empty grid clears no rows and leaves every cell as
/// it was.
pub proof fn lemma_clear_empty_grid(cells: Seq<u8>, width: int, height: int)
    requires
        width >= 1,
        height >= 0,
        cells.len() == width * height,
        forall|i: int| 0 <= i < cells.len() ==> cells[i] == 0,
    ensures
        full_rows_up_to(cells, width, height) == 0,
        kept_rows_up_to(cells, width, height) == cells,
{
    assert forall|r: int| 0 <= r < height implies !row_full(cells, width, r) by {
        assert(0 <= r * width + 0 && r * width + 0 < width * height) by (nonlinear_arith)
            requires
                0 <= r <= height - 1,
                width >= 1,
        ;
        assert(cell_at(cells, width, 0, r) == 0);
    }
    lemma_kept_identity(cells, width, height);
    assert(kept_rows_up_to(cells, width, height) =~= cells);
}

/// Every row the clearing pass keeps is non-full: among the first `upto`
/// rows, the kept cells form rows that each still have an empty cell.
proof fn lemma_kept_rows_not_full(cells: Seq<u8>, width: int, upto: int)
    requires
        width >= 1,
        upto >= 0,
        cells.len() >= width * upto,
    ensures
        forall|q: int|
            0 <= q < upto - full_rows_up_to(cells, width, upto) ==> !row_full(
                kept_rows_up_to(cells, width, upto),
                width,
                q,
            ),
    decreases upto,
{
    if upto > 0 {
        assert(width * (upto - 1) < width * upto && width * upto == width * (upto - 1) + width && (
        upto - 1) * width == width * (upto - 1) && upto * width == width * upto) by (
        nonlinear_arith)
            requires
                width >= 1,
                upto >= 1,
        ;
        lemma_kept_rows_not_full(cells, width, upto - 1);
        lemma_kept_rows_len(cells, width, upto - 1);
        lemma_full_rows_bounded(cells, width, upto - 1);
        let kept1 = kept_rows_up_to(cells, width, upto - 1);
        let kept = kept_rows_up_to(cells, width, upto);
        let f1 = full_rows_up_to(cells, width, upto - 1);
        let rows1 = upto - 1 - f1;
        if row_full(cells, width, upto - 1) {
            assert(kept =~= kept1);
        } else {
            // the appended row keeps an empty cell of the original row
            assert forall|q: int| 0 <= q < upto - full_rows_up_to(cells, width, upto)
                implies !row_full(kept, width, q) by {
                if q < rows1 {
                    assert(!row_full(kept1, width, q));
                    let x0 = choose|x: int|
                        0 <= x < width && #[trigger] cell_at(kept1, width, x, q) == 0;
                    assert(0 <= q * width + x0 && q * width + x0 < rows1 * width) by (
                    nonlinear_arith)
                        requires
                            0 <= q <= rows1 - 1,
                            0 <= x0 <= width - 1,
                            width >= 1,
                    ;
                    assert(cell_at(kept, width, x0, q) == cell_at(kept1, width, x0, q));
                } else {
                    // q is the newly kept row, a copy of original row upto - 1
                    assert(q == rows1);
                    let x0 = choose|x: int|
                        0 <= x < width && #[trigger] cell_at(cells, width, x, upto - 1) == 0;
                    assert(0 <= rows1 * width + x0 && rows1 * width + x0 - kept1.len() == x0) by (
                    nonlinear_arith)
                        requires
                            0 <= x0 <= width - 1,
                            width >= 1,
                            rows1 >= 0,
                            kept1.len() == rows1 * width,
                    ;
                    assert(cell_at(kept, width, x0, q) == cells.subrange(
                        (upto - 1) * width,
                        upto * width,
                    )[x0]);
                    assert(cell_at(kept, width, x0, q) == cell_at(cells, width, x0, upto - 1));
                }
            }
        }
    }
}

/// Line clearing is idempotent: the grid a clear produces holds no full
/// row, so clearing it again clears nothing and leaves it unchanged.
pub proof fn lemma_clear_lines_idempotent(cells: Seq<u8>, width: int, height: int)
    requires
        width >= 1,
        height >= 0,
        cells.len() == width * height,
    ensures
        ({
            let cleared = full_rows_up_to(cells, width, height);
            let result = Seq::new((cleared * width) as nat, |i: int| 0u8) + kept_rows_up_to(
                cells,
                width,
                height,
            );
            &&& result.len() == width * height
            &&& full_rows_up_to(result, width, height) == 0
            &&& kept_rows_up_to(result, width, height) == result
        }),
{
    let cleared = full_rows_up_to(cells, width, height);
    let kept = kept_rows_up_to(cells, width, height);
    let result = Seq::new((cleared * width) as nat, |i: int| 0u8) + kept;
    lemma_full_rows_bounded(cells, width, height);
    lemma_kept_rows_len(cells, width, height);
    lemma_kept_rows_not_full(cells, width, height);
    assert(cleared * width + (height - cleared) * width == height * width && height * width == width
        * height && 0 <= cleared * width) by (nonlinear_arith)
        requires
            0 <= cleared <= height,
            width >= 1,
    ;
    assert(result.len() == width * height);
    assert forall|r: int| 0 <= r < height implies !row_full(result, width, r) by {
        if r < cleared {
            assert(0 <= r * width + 0 && r * width + 0 < cleared * width) by (nonlinear_arith)
                requires
                    0 <= r <= cleared - 1,
                    width >= 1,
            ;
            assert(cell_at(result, width, 0, r) == 0);
        } else {
            let q = r - cleared;
            assert(!row_full(kept, width, q));
            let x0 = choose|x: int| 0 <= x < width && #[trigger] cell_at(kept, width, x, q) == 0;
            assert(0 <= q * width + x0 && q * width + x0 < (height - cleared) * width && r * width
                + x0 - cleared * width == q * width + x0) by (nonlinear_arith)
                requires
                    0 <= q <= height - cleared - 1,
                    0 <= x0 <= width - 1,
                    width >= 1,
                    r == q + cleared,
                    0 <= cleared,
            ;
            assert(cell_at(result, width, x0, r) == cell_at(kept, width, x0, q));
        }
    }
    lemma_kept_identity(result, width, height);
    assert(kept_rows_up_to(result, width, height) =~= result);
}

} // verus!
