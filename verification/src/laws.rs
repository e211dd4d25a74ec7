//! Facts that hold of every game, proved over the model.

use vstd::prelude::*;
use crate::game::{spawn_in_bounds, GameModel};
use crate::grid::{
    can_place, can_place_in_bounds, cleared_is_grid, cleared_without_complete_row, covers,
    locked_cells, row_complete, GRID_COLS, GRID_ROWS,
};
use crate::piece::orientation_rotated;
use crate::piece_type::PieceType;
use crate::shape::{occupied, rotated, shape_of};

verus! {

/// A move leaves the playfield, the shape, the identity and the timer as
/// they were, keeps a valid game valid, and keeps a piece that fits fitting.
pub proof fn moved_keeps_valid(game: GameModel, dx: int, dy: int)
    requires
        game.wf(),
    ensures
        game.moved(dx, dy).wf(),
        game.fits() ==> game.moved(dx, dy).fits(),
        game.moved(dx, dy).grid == game.grid,
        game.moved(dx, dy).piece.shape == game.piece.shape,
        game.moved(dx, dy).piece.piece_type == game.piece.piece_type,
        game.moved(dx, dy).last_fall == game.last_fall,
        game.moved(dx, dy).fall_speed == game.fall_speed,
{
    can_place_in_bounds(game.grid, game.piece.shape, game.piece.x + dx, game.piece.y + dy);
}

/// A move that is rejected leaves the game as it was.
pub proof fn blocked_move_changes_nothing(game: GameModel, dx: int, dy: int)
    requires
        !game.can_move(game.piece.x + dx, game.piece.y + dy),
    ensures
        game.moved(dx, dy) == game,
{
}

/// A turn leaves the playfield, the position, the identity and the timer as
/// they were, keeps a valid game valid, and keeps a piece that fits fitting.
pub proof fn rotated_keeps_valid(game: GameModel)
    requires
        game.wf(),
    ensures
        game.rotated().wf(),
        game.fits() ==> game.rotated().fits(),
        game.rotated().grid == game.grid,
        game.rotated().piece.x == game.piece.x,
        game.rotated().piece.y == game.piece.y,
        game.rotated().piece.piece_type == game.piece.piece_type,
        game.rotated().last_fall == game.last_fall,
        game.rotated().fall_speed == game.fall_speed,
{
    orientation_rotated(game.piece.shape, game.piece.piece_type);
    can_place_in_bounds(game.grid, rotated(game.piece.shape), game.piece.x, game.piece.y);
}

/// A turn whose turned shape does not fit leaves the game as it was, the
/// shape cell for cell.
pub proof fn blocked_rotation_changes_nothing(game: GameModel)
    requires
        !can_place(game.grid, rotated(game.piece.shape), game.piece.x, game.piece.y),
    ensures
        game.rotated() == game,
{
}

/// The square piece looks the same after a quarter turn.
pub proof fn square_is_symmetric()
    ensures
        rotated(shape_of(PieceType::O)) == shape_of(PieceType::O),
{
    assert(rotated(shape_of(PieceType::O)) =~~= shape_of(PieceType::O));
}

/// Turning the square piece changes nothing, whatever the playfield holds.
pub proof fn rotating_square_changes_nothing(game: GameModel)
    requires
        game.wf(),
        game.piece.piece_type == PieceType::O,
    ensures
        game.rotated() == game,
{
    square_is_symmetric();
}

/// The bar has two orientations: lying, one row of four cells, and
/// standing, four rows of one cell. A quarter turn leads from each to the
/// other.
pub proof fn bar_orientations()
    ensures
        rotated(shape_of(PieceType::I)) == seq![seq![true], seq![true], seq![true], seq![true]],
        rotated(rotated(shape_of(PieceType::I))) == shape_of(PieceType::I),
{
    let standing = seq![seq![true], seq![true], seq![true], seq![true]];
    assert(rotated(shape_of(PieceType::I)) =~~= standing);
    assert(rotated(standing) =~~= shape_of(PieceType::I));
}

/// Four turns of a bar that fits lead back to the game they started from.
pub proof fn rotating_bar_four_times(game: GameModel)
    requires
        game.wf(),
        game.fits(),
        game.piece.piece_type == PieceType::I,
    ensures
        game.rotated().rotated().rotated().rotated() == game,
{
    bar_orientations();
}

/// Locking keeps a valid game valid and leaves the timer as it was. The
/// entering piece lies inside the playfield; whether it lies on free cells
/// is not promised.
pub proof fn locked_keeps_valid(game: GameModel, next: PieceType)
    requires
        game.wf(),
    ensures
        game.locked(next).wf(),
        game.locked(next).last_fall == game.last_fall,
        game.locked(next).fall_speed == game.fall_speed,
{
    locked_cells(
        game.grid,
        game.piece.shape,
        game.piece.x,
        game.piece.y,
        game.piece.piece_type,
    );
    cleared_is_grid(game.grid_with_piece());
    spawn_in_bounds(next);
}

/// Locking a piece that completes no row leaves the piece's identity in
/// each cell of the playfield that the piece covered, and every other cell
/// as it was.
pub proof fn locked_without_complete_row(game: GameModel, next: PieceType)
    requires
        game.wf(),
        forall|r: int| 0 <= r < GRID_ROWS ==> !row_complete(#[trigger] game.grid_with_piece()[r]),
    ensures
        game.locked(next).grid == game.grid_with_piece(),
        forall|r: int, c: int|
            #![trigger occupied(game.piece.shape, r, c)]
            occupied(game.piece.shape, r, c) && game.piece.y + r >= 0 ==> game.locked(
                next,
            ).grid[game.piece.y + r][game.piece.x + c] == Some(game.piece.piece_type),
        forall|row: int, col: int|
            #![trigger game.locked(next).grid[row][col]]
            0 <= row < GRID_ROWS && 0 <= col < GRID_COLS && !covers(
                game.piece.shape,
                game.piece.x,
                game.piece.y,
                row,
                col,
            ) ==> game.locked(next).grid[row][col] == game.grid[row][col],
{
    locked_cells(
        game.grid,
        game.piece.shape,
        game.piece.x,
        game.piece.y,
        game.piece.piece_type,
    );
    cleared_without_complete_row(game.grid_with_piece());
}

/// A tick keeps a valid game valid. Before a step is due it changes
/// nothing; from then on it times the step at `now`.
pub proof fn ticked_keeps_valid(game: GameModel, now: int, next: PieceType)
    requires
        game.wf(),
    ensures
        game.ticked(now, next).wf(),
        !game.due(now) ==> game.ticked(now, next) == game,
        game.due(now) ==> game.ticked(now, next).last_fall == now,
        game.ticked(now, next).fall_speed == game.fall_speed,
{
    moved_keeps_valid(game, 0, 1);
    locked_keeps_valid(game, next);
}

/// A tick that is due, on a piece that cannot move down, locks it: the
/// playfield takes the piece's cells and the next piece enters at the spawn
/// position.
pub proof fn blocked_tick_locks(game: GameModel, now: int, next: PieceType)
    requires
        game.due(now),
        !game.can_move(game.piece.x, game.piece.y + 1),
    ensures
        game.ticked(now, next).grid == game.locked(next).grid,
        game.ticked(now, next).piece == game.locked(next).piece,
{
}

} // verus!
