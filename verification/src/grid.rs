//! The playfield: twenty rows of ten cells, each empty or holding the
//! identity of the piece that was locked there.

use vstd::prelude::*;
use crate::piece_type::PieceType;
use crate::shape::{occupied, shape_view, ShapeModel};

verus! {

/// Number of rows of the playfield.
pub const GRID_ROWS: usize = 20;

/// Number of columns of the playfield.
pub const GRID_COLS: usize = 10;

/// One cell of the playfield.
pub type Cell = Option<PieceType>;

/// The mathematical model of a playfield: rows from top to bottom.
pub type GridModel = Seq<Seq<Cell>>;

/// A model with the fixed dimensions of the playfield.
pub open spec fn is_grid(g: GridModel) -> bool {
    &&& g.len() == GRID_ROWS
    &&& forall|r: int| 0 <= r < g.len() ==> (#[trigger] g[r]).len() == GRID_COLS
}

/// A row of ten empty cells.
pub open spec fn empty_row() -> Seq<Cell> {
    Seq::new(GRID_COLS as nat, |c: int| None)
}

/// `n` empty rows.
pub open spec fn empty_rows(n: nat) -> GridModel {
    Seq::new(n, |r: int| empty_row())
}

/// The cell in column `col`, row `row` can take a piece's cell: the column
/// lies in the playfield, the row is not below the floor, and if the row is
/// not above the top, the cell there is empty.
pub open spec fn cell_free(g: GridModel, col: int, row: int) -> bool {
    &&& 0 <= col < GRID_COLS
    &&& row < GRID_ROWS
    &&& (row >= 0 ==> g[row][col] is None)
}

/// A shape with its top-left corner at column `x`, row `y` can be placed:
/// every occupied cell of it falls on a free cell.
pub open spec fn can_place(g: GridModel, s: ShapeModel, x: int, y: int) -> bool {
    forall|r: int, c: int| #[trigger] occupied(s, r, c) ==> cell_free(g, x + c, y + r)
}

/// Every occupied cell of the shape lies in a column of the playfield and
/// not below the floor.
pub open spec fn in_bounds(s: ShapeModel, x: int, y: int) -> bool {
    forall|r: int, c: int| #[trigger]
        occupied(s, r, c) ==> 0 <= x + c < GRID_COLS && y + r < GRID_ROWS
}

/// The shape with its top-left corner at column `x`, row `y` has an occupied
/// cell at row `row`, column `col` of the playfield.
pub open spec fn covers(s: ShapeModel, x: int, y: int, row: int, col: int) -> bool {
    occupied(s, row - y, col - x)
}

/// The playfield after the shape's occupied cells were written into it with
/// identity `t`. Cells of the shape above the top row are dropped.
pub open spec fn locked(g: GridModel, s: ShapeModel, x: int, y: int, t: PieceType) -> GridModel {
    Seq::new(
        g.len(),
        |row: int|
            Seq::new(
                g[row].len(),
                |col: int|
                    if covers(s, x, y, row, col) {
                        Some(t)
                    } else {
                        g[row][col]
                    },
            ),
    )
}

/// The playfield while locking is under way: the shape's rows above
/// `rows_done` and, of row `rows_done`, the cells left of `cols_done` are
/// written.
spec fn locked_before(
    g: GridModel,
    s: ShapeModel,
    x: int,
    y: int,
    t: PieceType,
    rows_done: int,
    cols_done: int,
) -> GridModel {
    Seq::new(
        g.len(),
        |row: int|
            Seq::new(
                g[row].len(),
                |col: int|
                    if covers(s, x, y, row, col) && (row - y < rows_done || (row - y == rows_done
                        && col - x < cols_done)) {
                        Some(t)
                    } else {
                        g[row][col]
                    },
            ),
    )
}

/// A row is complete when every cell of it is occupied.
pub open spec fn row_complete(row: Seq<Cell>) -> bool {
    forall|c: int| 0 <= c < row.len() ==> (#[trigger] row[c]) is Some
}

/// The rows that are not complete, in their order.
pub open spec fn kept_rows(g: GridModel) -> GridModel {
    g.filter(|row: Seq<Cell>| !row_complete(row))
}

/// The complete rows, in their order.
pub open spec fn complete_rows(g: GridModel) -> GridModel {
    g.filter(|row: Seq<Cell>| row_complete(row))
}

/// Number of complete rows under row `i`.
pub open spec fn complete_below(g: GridModel, i: int) -> nat {
    complete_rows(g.subrange(i + 1, g.len() as int)).len()
}

/// The playfield after row clearing. The scan runs from the bottom row up
/// and stops when it reaches the top row, so the top row is examined only
/// after a clearing below has moved it down. Hence: if no row under the top
/// row is complete the playfield stays as it is; otherwise every complete
/// row leaves, the rows that stay keep their order and sink to the floor,
/// and as many empty rows enter at the top as rows left.
pub open spec fn cleared(g: GridModel) -> GridModel {
    if exists|r: int| 1 <= r < g.len() && row_complete(#[trigger] g[r]) {
        empty_rows(complete_rows(g).len()) + kept_rows(g)
    } else {
        g
    }
}

/// The playfield.
#[derive(Clone, Debug)]
pub struct Grid {
    cells: Vec<Vec<Cell>>,
}

impl View for Grid {
    type V = GridModel;

    closed spec fn view(&self) -> GridModel {
        Seq::new(self.cells@.len(), |r: int| self.cells@[r]@)
    }
}

impl Grid {
    /// The playfield has its fixed dimensions.
    pub open spec fn wf(&self) -> bool {
        is_grid(self@)
    }

    /// An empty playfield.
    pub fn new() -> (grid: Grid)
        ensures
            grid.wf(),
            grid@ == empty_rows(GRID_ROWS as nat),
    {
        let mut cells: Vec<Vec<Cell>> = Vec::new();
        let mut r: usize = 0;
        while r < GRID_ROWS
            invariant
                r <= GRID_ROWS,
                cells.len() == r,
                forall|i: int| 0 <= i < r ==> (#[trigger] cells@[i])@ == empty_row(),
            decreases GRID_ROWS - r,
        {
            cells.push(new_row());
            r += 1;
        }
        Grid { cells }
    }

    /// The content of the cell in row `row`, column `col`.
    pub fn get(&self, row: usize, col: usize) -> (cell: Cell)
        requires
            self.wf(),
            row < GRID_ROWS,
            col < GRID_COLS,
        ensures
            cell == self@[row as int][col as int],
    {
        assert(self@[row as int].len() == GRID_COLS);
        self.cells[row][col]
    }

    /// Overwrites the cell in row `row`, column `col`.
    pub fn set(&mut self, row: usize, col: usize, cell: Cell)
        requires
            old(self).wf(),
            row < GRID_ROWS,
            col < GRID_COLS,
        ensures
            final(self).wf(),
            final(self)@ == old(self)@.update(
                row as int,
                old(self)@[row as int].update(col as int, cell),
            ),
    {
        assert(self@[row as int].len() == GRID_COLS);
        self.cells[row][col] = cell;
        assert(self@ =~~= old(self)@.update(
            row as int,
            old(self)@[row as int].update(col as int, cell),
        ));
    }

    /// Whether `shape` fits with its top-left corner at column `x`, row `y`:
    /// no occupied cell of it leaves the playfield sideways or through the
    /// floor, and none falls on an occupied cell. Cells above the top row
    /// are never in the way.
    pub fn can_place(&self, shape: &Vec<Vec<bool>>, x: i32, y: i32) -> (ok: bool)
        requires
            self.wf(),
        ensures
            ok == can_place(self@, shape_view(shape), x as int, y as int),
    {
        let ghost s = shape_view(shape);
        let mut r: usize = 0;
        while r < shape.len()
            invariant
                r <= shape.len(),
                self.wf(),
                s == shape_view(shape),
                forall|i: int, j: int|
                    0 <= i < r && #[trigger] occupied(s, i, j) ==> cell_free(
                        self@,
                        x + j,
                        y + i,
                    ),
            decreases shape.len() - r,
        {
            let row = &shape[r];
            let mut c: usize = 0;
            while c < row.len()
                invariant
                    r < shape.len(),
                    c <= row.len(),
                    row == shape@[r as int],
                    self.wf(),
                    s == shape_view(shape),
                    forall|j: int|
                        0 <= j < c && #[trigger] occupied(s, r as int, j) ==> cell_free(
                            self@,
                            x + j,
                            y + r,
                        ),
                decreases row.len() - c,
            {
                if row[c] {
                    assert(occupied(s, r as int, c as int));
                    let col: i128 = x as i128 + c as i128;
                    let line: i128 = y as i128 + r as i128;
                    if col < 0 || col >= GRID_COLS as i128 || line >= GRID_ROWS as i128 {
                        return false;
                    }
                    if line >= 0 {
                        assert(self@[line as int].len() == GRID_COLS);
                        if self.cells[line as usize][col as usize].is_some() {
                            return false;
                        }
                    }
                }
                c += 1;
            }
            r += 1;
        }
        true
    }

    /// Writes the occupied cells of `shape`, placed with its top-left corner
    /// at column `x`, row `y`, into the playfield with identity
    /// `piece_type`. Cells above the top row are dropped.
    pub fn lock_cells(&mut self, shape: &Vec<Vec<bool>>, x: i32, y: i32, piece_type: PieceType)
        requires
            old(self).wf(),
            in_bounds(shape_view(shape), x as int, y as int),
        ensures
            final(self).wf(),
            final(self)@ == locked(
                old(self)@,
                shape_view(shape),
                x as int,
                y as int,
                piece_type,
            ),
    {
        let ghost s = shape_view(shape);
        let ghost g0 = self@;
        let mut r: usize = 0;
        assert(self@ =~~= locked_before(g0, s, x as int, y as int, piece_type, 0, 0));
        while r < shape.len()
            invariant
                r <= shape.len(),
                self.wf(),
                is_grid(g0),
                s == shape_view(shape),
                in_bounds(s, x as int, y as int),
                self@ == locked_before(g0, s, x as int, y as int, piece_type, r as int, 0),
            decreases shape.len() - r,
        {
            let row = &shape[r];
            let mut c: usize = 0;
            while c < row.len()
                invariant
                    r < shape.len(),
                    c <= row.len(),
                    row == shape@[r as int],
                    self.wf(),
                    is_grid(g0),
                    s == shape_view(shape),
                    in_bounds(s, x as int, y as int),
                    self@ == locked_before(
                        g0,
                        s,
                        x as int,
                        y as int,
                        piece_type,
                        r as int,
                        c as int,
                    ),
                decreases row.len() - c,
            {
                let ghost before = self@;
                if row[c] {
                    assert(occupied(s, r as int, c as int));
                    let col: i128 = x as i128 + c as i128;
                    let line: i128 = y as i128 + r as i128;
                    if line >= 0 {
                        assert(self@[line as int].len() == GRID_COLS);
                        self.cells[line as usize][col as usize] = Some(piece_type);
                        assert(self@ =~~= before.update(
                            line as int,
                            before[line as int].update(col as int, Some(piece_type)),
                        ));
                    }
                }
                assert(self@ =~~= locked_before(
                    g0,
                    s,
                    x as int,
                    y as int,
                    piece_type,
                    r as int,
                    c + 1,
                ));
                c += 1;
            }
            assert(self@ =~~= locked_before(g0, s, x as int, y as int, piece_type, r + 1, 0));
            r += 1;
        }
        assert(self@ =~~= locked(g0, s, x as int, y as int, piece_type));
    }

    /// Whether every cell of row `row` is occupied.
    pub fn is_row_complete(&self, row: usize) -> (full: bool)
        requires
            self.wf(),
            row < GRID_ROWS,
        ensures
            full == row_complete(self@[row as int]),
    {
        let cells = &self.cells[row];
        let mut c: usize = 0;
        while c < cells.len()
            invariant
                c <= cells.len(),
                cells@ == self@[row as int],
                forall|i: int| 0 <= i < c ==> (#[trigger] cells@[i]) is Some,
            decreases cells.len() - c,
        {
            if cells[c].is_none() {
                return false;
            }
            c += 1;
        }
        true
    }

    /// Removes the complete rows: the rows above a removed row move down by
    /// one and an empty row enters at the top. The scan starts at the bottom
    /// row, looks at the same index again after a removal, and ends when it
    /// reaches the top row.
    pub fn clear_rows(&mut self)
        requires
            old(self).wf(),
        ensures
            final(self).wf(),
            final(self)@ == cleared(old(self)@),
    {
        let ghost g0 = self@;
        // Rows of the old playfield that the scan has not looked at yet, and
        // the number of rows removed so far.
        let ghost mut unseen: int = GRID_ROWS as int;
        let ghost mut removed: int = 0;
        let mut row: usize = GRID_ROWS - 1;
        proof {
            reveal_with_fuel(Seq::filter, 1);
        }
        while row > 0
            invariant
                self.wf(),
                is_grid(g0),
                row < GRID_ROWS,
                0 <= unseen <= GRID_ROWS,
                0 <= removed,
                removed + unseen + kept_rows(g0.subrange(unseen, GRID_ROWS as int)).len()
                    == GRID_ROWS,
                self@ == empty_rows(removed as nat) + g0.subrange(0, unseen) + kept_rows(
                    g0.subrange(unseen, GRID_ROWS as int),
                ),
                unseen > 0 ==> row == removed + unseen - 1,
                unseen == 0 ==> row < removed,
                removed > 0 <==> exists|r: int|
                    unseen <= r < GRID_ROWS && row_complete(#[trigger] g0[r]),
                unseen == 0 ==> exists|r: int| 1 <= r < GRID_ROWS && row_complete(#[trigger] g0[r]),
            decreases row + unseen,
        {
            let ghost before = self@;
            let ghost kept = kept_rows(g0.subrange(unseen, GRID_ROWS as int));
            proof {
                if unseen > 0 {
                    kept_rows_prepend(g0, unseen);
                } else {
                    assert(empty_row()[0] is None);
                }
            }
            if self.is_row_complete(row) {
                let fresh = new_row();
                self.cells.remove(row);
                self.cells.insert(0, fresh);
                proof {
                    let after = empty_rows((removed + 1) as nat) + g0.subrange(0, unseen - 1)
                        + kept;
                    assert forall|i: int| 0 <= i < self@.len() implies self@[i] == after[i]
                        && (#[trigger] self@[i]).len() == GRID_COLS by {
                        if i == 0 {
                        } else if i <= row {
                            assert(self@[i] == before[i - 1]);
                        } else {
                            assert(self@[i] == before[i]);
                        }
                    }
                    unseen = unseen - 1;
                    removed = removed + 1;
                }
            } else {
                proof {
                    if unseen > 0 {
                        unseen = unseen - 1;
                    }
                }
                row -= 1;
            }
        }
        proof {
            if unseen > 0 {
                let rest = g0.subrange(1, GRID_ROWS as int);
                kept_rows_of_incomplete(rest);
            } else {
                rows_complete_or_kept(g0);
            }
        }
    }
}

/// A fresh row of ten empty cells.
fn new_row() -> (row: Vec<Cell>)
    ensures
        row@ == empty_row(),
{
    let mut row: Vec<Cell> = Vec::new();
    let mut c: usize = 0;
    while c < GRID_COLS
        invariant
            c <= GRID_COLS,
            row.len() == c,
            forall|i: int| 0 <= i < c ==> #[trigger] row@[i] is None,
        decreases GRID_COLS - c,
    {
        row.push(None);
        c += 1;
    }
    row
}

/// Filtering a playfield from row `u - 1` on: the row at `u - 1` leads the
/// kept rows from `u` on if it is not complete, and is left out otherwise.
proof fn kept_rows_prepend(g: GridModel, u: int)
    requires
        0 < u <= g.len(),
    ensures
        kept_rows(g.subrange(u - 1, g.len() as int)) == if row_complete(g[u - 1]) {
            kept_rows(g.subrange(u, g.len() as int))
        } else {
            seq![g[u - 1]] + kept_rows(g.subrange(u, g.len() as int))
        },
{
    let head = seq![g[u - 1]];
    let tail = g.subrange(u, g.len() as int);
    let keep = |row: Seq<Cell>| !row_complete(row);
    assert(g.subrange(u - 1, g.len() as int) =~= head + tail);
    Seq::filter_distributes_over_add(head, tail, keep);
    reveal_with_fuel(Seq::filter, 2);
}

/// Where no row is complete, all rows are kept.
pub proof fn kept_rows_of_incomplete(g: GridModel)
    requires
        forall|i: int| 0 <= i < g.len() ==> !row_complete(#[trigger] g[i]),
    ensures
        kept_rows(g) == g,
    decreases g.len(),
{
    reveal_with_fuel(Seq::filter, 1);
    if g.len() > 0 {
        kept_rows_of_incomplete(g.drop_last());
    }
}

/// A shape cannot be placed where one of its occupied cells would lie
/// beside the playfield, below its floor, or on an occupied cell of a row
/// that is not above the top.
pub proof fn blocked_cell_rejects(g: GridModel, s: ShapeModel, x: int, y: int, r: int, c: int)
    requires
        occupied(s, r, c),
        x + c < 0 || x + c >= GRID_COLS || y + r >= GRID_ROWS || (y + r >= 0 && g[y + r][x
            + c] is Some),
    ensures
        !can_place(g, s, x, y),
{
}

/// A shape that can be placed lies inside the playfield, and on an empty
/// playfield the two say the same.
pub proof fn can_place_in_bounds(g: GridModel, s: ShapeModel, x: int, y: int)
    ensures
        can_place(g, s, x, y) ==> in_bounds(s, x, y),
        can_place(empty_rows(GRID_ROWS as nat), s, x, y) == in_bounds(s, x, y),
{
}

/// Locking writes the identity into every cell that the shape covers and
/// leaves every other cell as it was.
pub proof fn locked_cells(g: GridModel, s: ShapeModel, x: int, y: int, t: PieceType)
    requires
        is_grid(g),
    ensures
        is_grid(locked(g, s, x, y, t)),
        forall|row: int, col: int|
            0 <= row < GRID_ROWS && 0 <= col < GRID_COLS ==> #[trigger] locked(
                g,
                s,
                x,
                y,
                t,
            )[row][col] == if covers(s, x, y, row, col) {
                Some(t)
            } else {
                g[row][col]
            },
{
}

/// Where every row is complete, none is kept.
pub proof fn kept_rows_of_complete(g: GridModel)
    requires
        forall|i: int| 0 <= i < g.len() ==> row_complete(#[trigger] g[i]),
    ensures
        kept_rows(g) == Seq::<Seq<Cell>>::empty(),
    decreases g.len(),
{
    reveal_with_fuel(Seq::filter, 1);
    if g.len() > 0 {
        kept_rows_of_complete(g.drop_last());
    }
}

/// Every kept row is a row of the playfield.
pub proof fn kept_rows_are_rows(g: GridModel, i: int)
    requires
        0 <= i < kept_rows(g).len(),
    ensures
        exists|k: int| 0 <= k < g.len() && #[trigger] g[k] == kept_rows(g)[i],
{
    let keep = |row: Seq<Cell>| !row_complete(row);
    let row = kept_rows(g)[i];
    g.lemma_filter_contains_rev(keep, row);
}

/// Row clearing keeps the dimensions of the playfield.
pub proof fn cleared_is_grid(g: GridModel)
    requires
        is_grid(g),
    ensures
        is_grid(cleared(g)),
{
    rows_complete_or_kept(g);
    let gone: nat = complete_rows(g).len();
    assert forall|r: int| 0 <= r < cleared(g).len() implies (#[trigger] cleared(g)[r]).len()
        == GRID_COLS by {
        if exists|r: int| 1 <= r < g.len() && row_complete(#[trigger] g[r]) {
            if r >= gone {
                kept_rows_are_rows(g, r - gone);
            }
        }
    }
}

/// A playfield without a complete row is left as it is by row clearing.
pub proof fn cleared_without_complete_row(g: GridModel)
    requires
        forall|r: int| 0 <= r < g.len() ==> !row_complete(#[trigger] g[r]),
    ensures
        cleared(g) == g,
{
}

/// A playfield whose twenty rows are all complete is empty after row
/// clearing.
pub proof fn cleared_full_grid(g: GridModel)
    requires
        is_grid(g),
        forall|r: int| 0 <= r < g.len() ==> row_complete(#[trigger] g[r]),
    ensures
        cleared(g) == empty_rows(GRID_ROWS as nat),
{
    kept_rows_of_complete(g);
    rows_complete_or_kept(g);
    assert(row_complete(g[1]));
}

/// Every row is either complete or kept.
pub proof fn rows_complete_or_kept(g: GridModel)
    ensures
        complete_rows(g).len() + kept_rows(g).len() == g.len(),
    decreases g.len(),
{
    reveal_with_fuel(Seq::filter, 1);
    if g.len() > 0 {
        rows_complete_or_kept(g.drop_last());
    }
}

/// Where row clearing removes rows, a row that is not complete moves down
/// by the number of complete rows under it.
pub proof fn cleared_moves_rows_down(g: GridModel, i: int)
    requires
        exists|r: int| 1 <= r < g.len() && row_complete(#[trigger] g[r]),
        0 <= i < g.len(),
        !row_complete(g[i]),
    ensures
        i + complete_below(g, i) < g.len(),
        cleared(g)[i + complete_below(g, i)] == g[i],
{
    let keep = |row: Seq<Cell>| !row_complete(row);
    let above = g.subrange(0, i);
    let from = g.subrange(i, g.len() as int);
    let below = g.subrange(i + 1, g.len() as int);
    assert(g =~= above + from);
    Seq::filter_distributes_over_add(above, from, keep);
    assert(from.subrange(1, from.len() as int) =~= below);
    kept_rows_prepend(from, 1);
    assert(from.subrange(0, from.len() as int) =~= from);
    rows_complete_or_kept(g);
    rows_complete_or_kept(below);
}

/// Where row clearing removes rows, as many rows at the top are empty as
/// rows were complete.
pub proof fn cleared_fills_top(g: GridModel, k: int)
    requires
        exists|r: int| 1 <= r < g.len() && row_complete(#[trigger] g[r]),
        0 <= k < complete_rows(g).len(),
    ensures
        cleared(g)[k] == empty_row(),
{
}

} // verus!
