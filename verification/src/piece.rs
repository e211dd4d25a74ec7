//! The falling piece: a shape, the playfield position of its top-left
//! corner, and its identity.

use vstd::prelude::*;
use crate::piece_type::PieceType;
use crate::shape::{
    get_piece_shape, is_rectangular, occupied, rotate_shape, rotated, rotated_cell,
    rotated_dimensions, rotated_four_times, same_shape, shape_of, shape_view, width, ShapeModel,
};

verus! {

/// Column at which a new piece enters.
pub const SPAWN_X: i32 = 4;

/// Row at which a new piece enters.
pub const SPAWN_Y: i32 = 0;

/// A positioned, oriented tetromino.
#[derive(Clone, Debug)]
pub struct Piece {
    pub shape: Vec<Vec<bool>>,
    pub x: i32,
    pub y: i32,
    pub piece_type: PieceType,
}

/// The mathematical model of a piece.
pub struct PieceModel {
    pub shape: ShapeModel,
    pub x: int,
    pub y: int,
    pub piece_type: PieceType,
}

impl View for Piece {
    type V = PieceModel;

    open spec fn view(&self) -> PieceModel {
        PieceModel {
            shape: shape_view(&self.shape),
            x: self.x as int,
            y: self.y as int,
            piece_type: self.piece_type,
        }
    }
}

/// `s` is the canonical layout of `t` after zero to three quarter turns.
pub open spec fn is_orientation(s: ShapeModel, t: PieceType) -> bool {
    ||| s == shape_of(t)
    ||| s == rotated(shape_of(t))
    ||| s == rotated(rotated(shape_of(t)))
    ||| s == rotated(rotated(rotated(shape_of(t))))
}

/// The shape has an occupied cell.
pub open spec fn has_cell(s: ShapeModel) -> bool {
    exists|r: int, c: int| #[trigger] occupied(s, r, c)
}

/// The piece as it enters the playfield: the canonical layout of `t` at the
/// spawn position.
pub open spec fn spawned(t: PieceType) -> PieceModel {
    PieceModel { shape: shape_of(t), x: SPAWN_X as int, y: SPAWN_Y as int, piece_type: t }
}

impl PieceModel {
    /// The shape is an orientation of the identity's canonical layout.
    pub open spec fn wf(self) -> bool {
        is_orientation(self.shape, self.piece_type)
    }
}

impl Piece {
    /// Whether the shape is the canonical layout of the piece's identity
    /// after zero to three quarter turns.
    pub fn is_valid(&self) -> (valid: bool)
        ensures
            valid == self@.wf(),
    {
        proof {
            catalog_dimensions(self.piece_type);
            rotated_dimensions(shape_of(self.piece_type));
            rotated_dimensions(rotated(shape_of(self.piece_type)));
        }
        let upright = get_piece_shape(self.piece_type);
        if same_shape(&self.shape, &upright) {
            return true;
        }
        let once = rotate_shape(&upright);
        if same_shape(&self.shape, &once) {
            return true;
        }
        let twice = rotate_shape(&once);
        if same_shape(&self.shape, &twice) {
            return true;
        }
        let thrice = rotate_shape(&twice);
        same_shape(&self.shape, &thrice)
    }

    /// The piece of identity `piece_type` as it enters the playfield.
    pub fn spawn(piece_type: PieceType) -> (piece: Piece)
        ensures
            piece@ == spawned(piece_type),
            piece@.wf(),
    {
        Piece { shape: get_piece_shape(piece_type), x: SPAWN_X, y: SPAWN_Y, piece_type }
    }
}

/// Every canonical layout is a rectangle of one or two rows and two to four
/// columns whose last row is occupied in its second column.
pub proof fn catalog_dimensions(t: PieceType)
    ensures
        is_rectangular(shape_of(t)),
        1 <= shape_of(t).len() <= 2,
        2 <= width(shape_of(t)) <= 4,
        occupied(shape_of(t), shape_of(t).len() - 1, 1),
{
}

/// Every orientation of a canonical layout is a rectangle of at most four
/// rows and four columns with an occupied cell.
pub proof fn orientation_dimensions(s: ShapeModel, t: PieceType)
    requires
        is_orientation(s, t),
    ensures
        is_rectangular(s),
        1 <= s.len() <= 4,
        1 <= width(s) <= 4,
        has_cell(s),
{
    let s0 = shape_of(t);
    let s1 = rotated(s0);
    let s2 = rotated(s1);
    let s3 = rotated(s2);
    catalog_dimensions(t);
    rotated_dimensions(s0);
    rotated_dimensions(s1);
    rotated_dimensions(s2);
    let r0: int = s0.len() - 1;
    let c0: int = 1;
    rotated_cell(s0, r0, c0);
    let r1: int = c0;
    let c1: int = s0.len() - 1 - r0;
    rotated_cell(s1, r1, c1);
    let r2: int = c1;
    let c2: int = s1.len() - 1 - r1;
    rotated_cell(s2, r2, c2);
    let r3: int = c2;
    let c3: int = s2.len() - 1 - r2;
}

/// A quarter turn of an orientation is an orientation again.
pub proof fn orientation_rotated(s: ShapeModel, t: PieceType)
    requires
        is_orientation(s, t),
    ensures
        is_orientation(rotated(s), t),
{
    catalog_dimensions(t);
    rotated_four_times(shape_of(t));
}

} // verus!
