//! Shapes: rectangular boolean matrices, the catalog of canonical layouts,
//! and the quarter turn.

use vstd::prelude::*;
use crate::piece_type::PieceType;

verus! {

/// The mathematical model of a shape: rows of cells, `true` marking an
/// occupied cell of the bounding box.
pub type ShapeModel = Seq<Seq<bool>>;

/// The model of an executable shape.
pub open spec fn shape_view(shape: &Vec<Vec<bool>>) -> ShapeModel {
    Seq::new(shape@.len(), |r: int| shape@[r]@)
}

/// The canonical layout of each identity.
pub open spec fn shape_of(piece_type: PieceType) -> ShapeModel {
    match piece_type {
        PieceType::I => seq![seq![true, true, true, true]],
        PieceType::J => seq![seq![true, false, false], seq![true, true, true]],
        PieceType::L => seq![seq![false, false, true], seq![true, true, true]],
        PieceType::O => seq![seq![true, true], seq![true, true]],
        PieceType::S => seq![seq![false, true, true], seq![true, true, false]],
        PieceType::T => seq![seq![false, true, false], seq![true, true, true]],
        PieceType::Z => seq![seq![true, true, false], seq![false, true, true]],
    }
}

/// Builds the canonical layout of `piece_type`.
pub fn get_piece_shape(piece_type: PieceType) -> (shape: Vec<Vec<bool>>)
    ensures
        shape_view(&shape) == shape_of(piece_type),
{
    let shape = match piece_type {
        PieceType::I => vec![vec![true, true, true, true]],
        PieceType::J => vec![vec![true, false, false], vec![true, true, true]],
        PieceType::L => vec![vec![false, false, true], vec![true, true, true]],
        PieceType::O => vec![vec![true, true], vec![true, true]],
        PieceType::S => vec![vec![false, true, true], vec![true, true, false]],
        PieceType::T => vec![vec![false, true, false], vec![true, true, true]],
        PieceType::Z => vec![vec![true, true, false], vec![false, true, true]],
    };
    shape
}

/// Whether two shapes have the same rows, cell for cell.
pub fn same_shape(a: &Vec<Vec<bool>>, b: &Vec<Vec<bool>>) -> (same: bool)
    ensures
        same == (shape_view(a) == shape_view(b)),
{
    if a.len() != b.len() {
        assert(shape_view(a).len() != shape_view(b).len());
        return false;
    }
    let mut r: usize = 0;
    while r < a.len()
        invariant
            r <= a.len(),
            a.len() == b.len(),
            forall|i: int| 0 <= i < r ==> (#[trigger] a@[i])@ == b@[i]@,
        decreases a.len() - r,
    {
        let left = &a[r];
        let right = &b[r];
        if left.len() != right.len() {
            assert(shape_view(a)[r as int] != shape_view(b)[r as int]);
            return false;
        }
        let mut c: usize = 0;
        while c < left.len()
            invariant
                r < a.len(),
                a.len() == b.len(),
                left == a@[r as int],
                right == b@[r as int],
                c <= left.len(),
                left.len() == right.len(),
                forall|j: int| 0 <= j < c ==> #[trigger] left@[j] == right@[j],
            decreases left.len() - c,
        {
            if left[c] != right[c] {
                assert(shape_view(a)[r as int][c as int] != shape_view(b)[r as int][c as int]);
                return false;
            }
            c += 1;
        }
        r += 1;
    }
    assert(shape_view(a) =~~= shape_view(b));
    true
}

/// Number of columns of a shape: the length of its first row, zero when it
/// has no rows.
pub open spec fn width(s: ShapeModel) -> nat {
    if s.len() == 0 {
        0
    } else {
        s[0].len()
    }
}

/// All rows have the same length.
pub open spec fn is_rectangular(s: ShapeModel) -> bool {
    forall|r: int| 0 <= r < s.len() ==> (#[trigger] s[r]).len() == width(s)
}

/// Whether the cell in row `r`, column `c` of the bounding box exists and
/// is occupied.
pub open spec fn occupied(s: ShapeModel, r: int, c: int) -> bool {
    0 <= r < s.len() && 0 <= c < s[r].len() && s[r][c]
}

/// The shape turned a quarter clockwise about its bounding box: the cell in
/// row `r`, column `c` of an R x C shape moves to row `c`, column `R - 1 - r`
/// of a C x R shape.
pub open spec fn rotated(s: ShapeModel) -> ShapeModel {
    Seq::new(width(s), |c: int| Seq::new(s.len(), |k: int| s[s.len() - 1 - k][c]))
}

/// Turns a rectangular shape a quarter clockwise.
pub fn rotate_shape(shape: &Vec<Vec<bool>>) -> (out: Vec<Vec<bool>>)
    requires
        is_rectangular(shape_view(shape)),
    ensures
        shape_view(&out) == rotated(shape_view(shape)),
{
    let rows: usize = shape.len();
    let cols: usize = if rows == 0 {
        0
    } else {
        shape[0].len()
    };
    let ghost model = shape_view(shape);
    let mut out: Vec<Vec<bool>> = Vec::new();
    let mut c: usize = 0;
    while c < cols
        invariant
            c <= cols,
            rows == shape.len(),
            model == shape_view(shape),
            is_rectangular(model),
            cols == width(model),
            out.len() == c,
            forall|j: int| 0 <= j < c ==> (#[trigger] out@[j])@ == rotated(model)[j],
        decreases cols - c,
    {
        let mut column: Vec<bool> = Vec::new();
        let mut k: usize = 0;
        while k < rows
            invariant
                k <= rows,
                c < cols,
                rows == shape.len(),
                model == shape_view(shape),
                is_rectangular(model),
                cols == width(model),
                column.len() == k,
                forall|i: int| 0 <= i < k ==> #[trigger] column@[i] == model[rows - 1 - i][c as int],
            decreases rows - k,
        {
            assert(model[rows - 1 - k].len() == cols);
            column.push(shape[rows - 1 - k][c]);
            k += 1;
        }
        out.push(column);
        c += 1;
    }
    out
}

/// A quarter turn swaps the dimensions of a rectangular shape and keeps it
/// rectangular.
pub proof fn rotated_dimensions(s: ShapeModel)
    requires
        is_rectangular(s),
        s.len() > 0,
        width(s) > 0,
    ensures
        is_rectangular(rotated(s)),
        rotated(s).len() == width(s),
        width(rotated(s)) == s.len(),
{
}

/// A quarter turn moves every occupied cell and creates none.
pub proof fn rotated_cell(s: ShapeModel, r: int, c: int)
    requires
        is_rectangular(s),
        0 <= r < s.len(),
        0 <= c < width(s),
    ensures
        occupied(rotated(s), c, s.len() - 1 - r) == occupied(s, r, c),
{
}

/// Two quarter turns reverse both the rows and the columns.
pub proof fn rotated_twice(s: ShapeModel)
    requires
        is_rectangular(s),
        s.len() > 0,
        width(s) > 0,
    ensures
        rotated(rotated(s)) == Seq::new(
            s.len(),
            |r: int| Seq::new(width(s), |c: int| s[s.len() - 1 - r][width(s) - 1 - c]),
        ),
{
    rotated_dimensions(s);
    let half = Seq::new(
        s.len(),
        |r: int| Seq::new(width(s), |c: int| s[s.len() - 1 - r][width(s) - 1 - c]),
    );
    assert(rotated(rotated(s)) =~~= half);
}

/// Four quarter turns give every non-empty rectangular shape back.
pub proof fn rotated_four_times(s: ShapeModel)
    requires
        is_rectangular(s),
        s.len() > 0,
        width(s) > 0,
    ensures
        rotated(rotated(rotated(rotated(s)))) == s,
{
    rotated_dimensions(s);
    let half = rotated(rotated(s));
    rotated_twice(s);
    rotated_dimensions(rotated(s));
    rotated_twice(half);
    assert(rotated(rotated(half)) =~~= s);
}

} // verus!
