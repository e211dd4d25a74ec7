//! The simulation: one playfield, one falling piece and the gravity timer.

use vstd::prelude::*;
use crate::grid::{
    can_place, can_place_in_bounds, cleared, covers, empty_rows, in_bounds, is_grid, locked, Grid,
    GridModel, GRID_ROWS,
};
use crate::piece::{
    catalog_dimensions, orientation_dimensions, orientation_rotated, spawned, Piece, PieceModel,
};
use crate::piece_type::PieceType;
use crate::shape::{occupied, rotate_shape, rotated, shape_view, width};

verus! {

/// Milliseconds between two gravity steps of a new game.
pub const NORMAL_FALL_SPEED: u64 = 500;

/// The mathematical model of a game: the playfield, the falling piece, the
/// time of the last gravity step and the time between two steps, both in
/// milliseconds.
pub struct GameModel {
    pub grid: GridModel,
    pub piece: PieceModel,
    pub last_fall: int,
    pub fall_speed: int,
}

impl GameModel {
    /// The playfield has its dimensions, the piece is an orientation of its
    /// identity's layout, and no occupied cell of the piece lies beside or
    /// below the playfield.
    pub open spec fn wf(self) -> bool {
        &&& is_grid(self.grid)
        &&& self.piece.wf()
        &&& in_bounds(self.piece.shape, self.piece.x, self.piece.y)
    }

    /// The piece lies on free cells only.
    pub open spec fn fits(self) -> bool {
        can_place(self.grid, self.piece.shape, self.piece.x, self.piece.y)
    }

    /// A game that starts at time `now` with a piece of identity `t`.
    pub open spec fn initial(t: PieceType, now: int) -> GameModel {
        GameModel {
            grid: empty_rows(GRID_ROWS as nat),
            piece: spawned(t),
            last_fall: now,
            fall_speed: NORMAL_FALL_SPEED as int,
        }
    }

    /// The piece in its present orientation fits at column `x`, row `y`.
    pub open spec fn can_move(self, x: int, y: int) -> bool {
        can_place(self.grid, self.piece.shape, x, y)
    }

    /// The game after an attempt to move the piece by `dx` columns and `dy`
    /// rows: the piece is there if it fits there, and stays otherwise.
    pub open spec fn moved(self, dx: int, dy: int) -> GameModel {
        if self.can_move(self.piece.x + dx, self.piece.y + dy) {
            GameModel {
                piece: PieceModel { x: self.piece.x + dx, y: self.piece.y + dy, ..self.piece },
                ..self
            }
        } else {
            self
        }
    }

    /// The game after an attempt to turn the piece: the shape is turned if
    /// the turned shape fits at the piece's position, and stays otherwise.
    pub open spec fn rotated(self) -> GameModel {
        if can_place(self.grid, rotated(self.piece.shape), self.piece.x, self.piece.y) {
            GameModel { piece: PieceModel { shape: rotated(self.piece.shape), ..self.piece }, ..self }
        } else {
            self
        }
    }

    /// The playfield with the piece's cells written into it.
    pub open spec fn grid_with_piece(self) -> GridModel {
        locked(self.grid, self.piece.shape, self.piece.x, self.piece.y, self.piece.piece_type)
    }

    /// The game after locking: the piece's cells are written, complete rows
    /// are cleared, and a piece of identity `next` enters.
    pub open spec fn locked(self, next: PieceType) -> GameModel {
        GameModel { grid: cleared(self.grid_with_piece()), piece: spawned(next), ..self }
    }

    /// A gravity step is due at time `now`.
    pub open spec fn due(self, now: int) -> bool {
        now - self.last_fall >= self.fall_speed
    }

    /// The game after a tick at time `now`. Where no step is due nothing
    /// changes. Otherwise the piece moves down one row if it fits there and
    /// is locked if not, with `next` entering; either way the step is timed
    /// at `now`.
    pub open spec fn ticked(self, now: int, next: PieceType) -> GameModel {
        if self.due(now) {
            let stepped = if self.can_move(self.piece.x, self.piece.y + 1) {
                self.moved(0, 1)
            } else {
                self.locked(next)
            };
            GameModel { last_fall: now, ..stepped }
        } else {
            self
        }
    }
}

/// The cell `a`, given as column and row, comes before the cell `b` in
/// reading order.
pub open spec fn reads_before(a: (i32, i32), b: (i32, i32)) -> bool {
    a.1 < b.1 || (a.1 == b.1 && a.0 < b.0)
}

/// The game.
#[derive(Clone, Debug)]
pub struct GameState {
    grid: Grid,
    current_piece: Piece,
    last_fall: u64,
    fall_speed: u64,
}

impl View for GameState {
    type V = GameModel;

    closed spec fn view(&self) -> GameModel {
        GameModel {
            grid: self.grid@,
            piece: self.current_piece@,
            last_fall: self.last_fall as int,
            fall_speed: self.fall_speed as int,
        }
    }
}

impl GameState {
    /// The state is valid: see [`GameModel::wf`].
    pub open spec fn wf(&self) -> bool {
        self@.wf()
    }

    /// A piece of a random identity at the spawn position.
    pub fn spawn_new_piece() -> (piece: Piece)
        ensures
            piece@ == spawned(piece@.piece_type),
            piece@.wf(),
    {
        Piece::spawn(PieceType::random())
    }

    /// A new game at time `now`, in milliseconds, with a random first piece.
    pub fn new(now: u64) -> (game: GameState)
        ensures
            game.wf(),
            game@ == GameModel::initial(game@.piece.piece_type, now as int),
    {
        GameState::with_piece(PieceType::random(), now)
    }

    /// A new game at time `now`, in milliseconds, whose first piece has
    /// identity `first`.
    pub fn with_piece(first: PieceType, now: u64) -> (game: GameState)
        ensures
            game.wf(),
            game@ == GameModel::initial(first, now as int),
    {
        proof {
            spawn_in_bounds(first);
        }
        GameState {
            grid: Grid::new(),
            current_piece: Piece::spawn(first),
            last_fall: now,
            fall_speed: NORMAL_FALL_SPEED,
        }
    }

    /// A game put together from its parts, the times in milliseconds. It is
    /// there exactly if the piece is an orientation of its identity's layout
    /// and none of its occupied cells lies beside or below the playfield.
    pub fn from_parts(grid: Grid, piece: Piece, last_fall: u64, fall_speed: u64) -> (game: Option<
        GameState,
    >)
        requires
            grid.wf(),
        ensures
            game is Some <==> piece@.wf() && in_bounds(piece@.shape, piece@.x, piece@.y),
            game matches Some(g) ==> g.wf() && g@ == (GameModel {
                grid: grid@,
                piece: piece@,
                last_fall: last_fall as int,
                fall_speed: fall_speed as int,
            }),
    {
        proof {
            can_place_in_bounds(grid@, piece@.shape, piece@.x, piece@.y);
        }
        if piece.is_valid() && Grid::new().can_place(&piece.shape, piece.x, piece.y) {
            Some(GameState { grid, current_piece: piece, last_fall, fall_speed })
        } else {
            None
        }
    }

    /// The playfield.
    pub fn grid(&self) -> (grid: &Grid)
        ensures
            grid@ == self@.grid,
    {
        &self.grid
    }

    /// The falling piece.
    pub fn current_piece(&self) -> (piece: &Piece)
        ensures
            piece@ == self@.piece,
    {
        &self.current_piece
    }

    /// The playfield cells that the falling piece covers, each as column and
    /// row, in reading order: row by row from the top, each row from the
    /// left.
    pub fn current_cells(&self) -> (cells: Vec<(i32, i32)>)
        requires
            self.wf(),
        ensures
            forall|p: (i32, i32)| #[trigger]
                cells@.contains(p) <==> covers(
                    self@.piece.shape,
                    self@.piece.x,
                    self@.piece.y,
                    p.1 as int,
                    p.0 as int,
                ),
            forall|i: int, j: int|
                0 <= i < j < cells.len() ==> reads_before(#[trigger] cells[i], #[trigger] cells[j]),
    {
        let shape = &self.current_piece.shape;
        let x: i32 = self.current_piece.x;
        let y: i32 = self.current_piece.y;
        let ghost s = self@.piece.shape;
        let mut cells: Vec<(i32, i32)> = Vec::new();
        let mut r: usize = 0;
        while r < shape.len()
            invariant
                r <= shape.len(),
                s == shape_view(shape),
                in_bounds(s, x as int, y as int),
                forall|p: (i32, i32)| #[trigger]
                    cells@.contains(p) <==> covers(s, x as int, y as int, p.1 as int, p.0 as int)
                        && p.1 - y < r,
                forall|i: int, j: int|
                    0 <= i < j < cells.len() ==> reads_before(
                        #[trigger] cells[i],
                        #[trigger] cells[j],
                    ),
            decreases shape.len() - r,
        {
            let row = &shape[r];
            let mut c: usize = 0;
            while c < row.len()
                invariant
                    r < shape.len(),
                    c <= row.len(),
                    row == shape@[r as int],
                    s == shape_view(shape),
                    in_bounds(s, x as int, y as int),
                    forall|p: (i32, i32)| #[trigger]
                        cells@.contains(p) <==> covers(
                            s,
                            x as int,
                            y as int,
                            p.1 as int,
                            p.0 as int,
                        ) && (p.1 - y < r || (p.1 - y == r && p.0 - x < c)),
                    forall|i: int, j: int|
                        0 <= i < j < cells.len() ==> reads_before(
                            #[trigger] cells[i],
                            #[trigger] cells[j],
                        ),
                decreases row.len() - c,
            {
                if row[c] {
                    assert(occupied(s, r as int, c as int));
                    let col: i128 = x as i128 + c as i128;
                    let line: i128 = y as i128 + r as i128;
                    let cell: (i32, i32) = (col as i32, line as i32);
                    let ghost before = cells@;
                    cells.push(cell);
                    proof {
                        assert(cells@.last() == cell);
                        assert forall|p: (i32, i32)| #[trigger]
                            cells@.contains(p) <==> before.contains(p) || p == cell by {
                            if before.contains(p) {
                                let i: int = choose|i: int| 0 <= i < before.len() && before[i] == p;
                                assert(cells@[i] == p);
                            }
                        }
                        assert forall|i: int, j: int| 0 <= i < j < cells.len() implies reads_before(
                            #[trigger] cells[i],
                            #[trigger] cells[j],
                        ) by {
                            if j == cells.len() - 1 {
                                assert(before.contains(before[i]));
                            }
                        }
                    }
                }
                c += 1;
            }
            r += 1;
        }
        cells
    }

    /// Time of the last gravity step, in milliseconds.
    pub fn last_fall(&self) -> (t: u64)
        ensures
            t == self@.last_fall,
    {
        self.last_fall
    }

    /// Time between two gravity steps, in milliseconds.
    pub fn fall_speed(&self) -> (t: u64)
        ensures
            t == self@.fall_speed,
    {
        self.fall_speed
    }

    /// Sets the time between two gravity steps, in milliseconds.
    pub fn set_fall_speed(&mut self, millis: u64)
        ensures
            final(self)@ == (GameModel { fall_speed: millis as int, ..old(self)@ }),
    {
        self.fall_speed = millis;
    }

    /// Whether the piece in its present orientation fits at column `new_x`,
    /// row `new_y`.
    pub fn can_move(&self, new_x: i32, new_y: i32) -> (ok: bool)
        requires
            self.wf(),
        ensures
            ok == self@.can_move(new_x as int, new_y as int),
    {
        self.grid.can_place(&self.current_piece.shape, new_x, new_y)
    }

    /// Tries to move the piece by `dx` columns and `dy` rows. The piece
    /// moves if it fits at the new position; otherwise the game is left as
    /// it was. Returns whether the piece moved.
    pub fn try_move(&mut self, dx: i32, dy: i32) -> (moved: bool)
        requires
            old(self).wf(),
            old(self)@.piece.y + dy >= i32::MIN,
        ensures
            final(self).wf(),
            moved == old(self)@.can_move(old(self)@.piece.x + dx, old(self)@.piece.y + dy),
            final(self)@ == old(self)@.moved(dx as int, dy as int),
    {
        let new_x: i64 = self.current_piece.x as i64 + dx as i64;
        let new_y: i64 = self.current_piece.y as i64 + dy as i64;
        if new_x < i32::MIN as i64 || new_x > i32::MAX as i64 || new_y > i32::MAX as i64 {
            proof {
                far_away_is_blocked(self@, new_x as int, new_y as int);
            }
            return false;
        }
        if self.can_move(new_x as i32, new_y as i32) {
            self.current_piece.x = new_x as i32;
            self.current_piece.y = new_y as i32;
            true
        } else {
            false
        }
    }

    /// Tries to turn the piece a quarter clockwise about its bounding box,
    /// at its position. The piece is turned if the turned shape fits;
    /// otherwise the game is left as it was.
    pub fn rotate_piece(&mut self)
        requires
            old(self).wf(),
        ensures
            final(self).wf(),
            final(self)@ == old(self)@.rotated(),
    {
        proof {
            orientation_dimensions(self@.piece.shape, self@.piece.piece_type);
            orientation_rotated(self@.piece.shape, self@.piece.piece_type);
        }
        let turned = rotate_shape(&self.current_piece.shape);
        if self.grid.can_place(&turned, self.current_piece.x, self.current_piece.y) {
            self.current_piece.shape = turned;
        }
    }

    /// Removes the complete rows of the playfield.
    pub fn clear_rows(&mut self)
        requires
            old(self).wf(),
        ensures
            final(self).wf(),
            final(self)@ == (GameModel { grid: cleared(old(self)@.grid), ..old(self)@ }),
    {
        self.grid.clear_rows();
    }

    /// Locks the piece: writes its cells into the playfield, clears the
    /// complete rows and lets a piece of identity `next` enter.
    pub fn lock_piece_with(&mut self, next: PieceType)
        requires
            old(self).wf(),
        ensures
            final(self).wf(),
            final(self)@ == old(self)@.locked(next),
    {
        proof {
            spawn_in_bounds(next);
        }
        self.grid.lock_cells(
            &self.current_piece.shape,
            self.current_piece.x,
            self.current_piece.y,
            self.current_piece.piece_type,
        );
        self.grid.clear_rows();
        self.current_piece = Piece::spawn(next);
    }

    /// Locks the piece and lets a piece of a random identity enter.
    pub fn lock_piece(&mut self)
        requires
            old(self).wf(),
        ensures
            final(self).wf(),
            final(self)@ == old(self)@.locked(final(self)@.piece.piece_type),
    {
        self.lock_piece_with(PieceType::random());
    }

    /// Whether a gravity step is due at time `now`.
    pub fn is_due(&self, now: u64) -> (due: bool)
        ensures
            due == self@.due(now as int),
    {
        now >= self.last_fall && now - self.last_fall >= self.fall_speed
    }

    /// A tick at time `now`, in milliseconds, where a piece of identity
    /// `next` enters if the falling piece is locked.
    pub fn tick_with(&mut self, now: u64, next: PieceType)
        requires
            old(self).wf(),
        ensures
            final(self).wf(),
            final(self)@ == old(self)@.ticked(now as int, next),
    {
        if self.is_due(now) {
            if !self.try_move(0, 1) {
                self.lock_piece_with(next);
            }
            self.last_fall = now;
        }
    }

    /// A tick at time `now`, in milliseconds. If a gravity step is due the
    /// piece moves down one row, or is locked where it cannot; a piece of a
    /// random identity then enters.
    pub fn tick(&mut self, now: u64)
        requires
            old(self).wf(),
        ensures
            final(self).wf(),
            final(self)@ == old(self)@.ticked(now as int, final(self)@.piece.piece_type),
    {
        if self.is_due(now) {
            if !self.try_move(0, 1) {
                self.lock_piece();
            }
            self.last_fall = now;
        }
    }
}

/// A piece at the spawn position lies inside the playfield.
pub proof fn spawn_in_bounds(t: PieceType)
    ensures
        spawned(t).wf(),
        in_bounds(spawned(t).shape, spawned(t).x, spawned(t).y),
{
    catalog_dimensions(t);
}

/// A valid piece does not fit where its column is outside the range of a
/// 32-bit number, nor where its row is above that range.
proof fn far_away_is_blocked(game: GameModel, x: int, y: int)
    requires
        game.wf(),
        x < i32::MIN || x > i32::MAX || y > i32::MAX,
    ensures
        !game.can_move(x, y),
{
    orientation_dimensions(game.piece.shape, game.piece.piece_type);
}

} // verus!
