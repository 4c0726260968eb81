//! Board state: the grid of cells, the players' placement operations and
//! the row-major index arithmetic that the renderer relies on.

use vstd::prelude::*;

verus! {

/// Number of columns of the grid.
pub const WIDTH: usize = 7;

/// Number of rows of the grid.
pub const HEIGHT: usize = 6;

/// Number of cells of the grid: `WIDTH * HEIGHT`.
pub const CELL_COUNT: usize = 42;

/// Occupancy of one grid cell: claimed by one of the two players, or empty.
#[derive(Debug, Clone, Copy, PartialEq, Eq, Structural)]
pub enum Cell {
    Player1,
    Player2,
    Empty,
}

impl Cell {
    /// Whether this cell is unclaimed.
    pub fn is_empty(&self) -> (r: bool)
        ensures
            r == (*self is Empty),
    {
        match self {
            Cell::Empty => true,
            _ => false,
        }
    }
}

/// Coarse tag describing how far the game has progressed. The board stores
/// it but never transitions it: computing outcomes is the caller's concern.
#[derive(Debug, Clone, PartialEq, Eq, Structural)]
pub enum GameState {
    Playing,
    Player1win,
    Player2win,
    Draw,
}

/// Position `(x, y)` as an offset into the row-major cell array.
pub open spec fn cell_index(x: int, y: int) -> int {
    x + y * (WIDTH as int)
}

/// The cell sequence after a placement: cell `(x, y)` now holds `c`,
/// every other cell is unchanged.
pub open spec fn place_spec(cells: Seq<Cell>, x: int, y: int, c: Cell) -> Seq<Cell> {
    cells.update(cell_index(x, y), c)
}

/// The grid plus the caller-owned turn flag, game-state tag and move counter.
///
/// Cells are stored row-major: the cell at column `x` and row `y` sits at
/// offset `cell_index(x, y)`. Row `y = 0` is the bottom row of the board.
#[derive(Clone)]
pub struct ArrayBoard {
    cells: [Cell; 42],
    pub player1: bool,
    pub state: GameState,
    moves: usize,
}

impl View for ArrayBoard {
    type V = Seq<Cell>;

    /// A board is abstractly its sequence of 42 cells, in storage order.
    closed spec fn view(&self) -> Seq<Cell> {
        self.cells@
    }
}

impl ArrayBoard {
    /// How many placement calls this board has absorbed. A call counter,
    /// not an occupied-cell counter: overwriting placements count too.
    pub closed spec fn moves_played(&self) -> usize {
        self.moves
    }

    /// The active-player flag: `true` while it is player 1's turn. The
    /// field itself is public and caller-owned; this names it in contracts.
    pub closed spec fn active_player1(&self) -> bool {
        self.player1
    }

    /// The stored game-state tag, named for use in contracts.
    pub closed spec fn game_state(&self) -> GameState {
        self.state
    }

    /// A fresh board: every cell empty, player 1 to act, game in progress,
    /// no moves played.
    pub fn new() -> (b: Self)
        ensures
            b@.len() == CELL_COUNT,
            forall|i: int| 0 <= i < CELL_COUNT ==> b@[i] is Empty,
            b.active_player1() == true,
            b.game_state() is Playing,
            b.moves_played() == 0,
    {
        Self {
            cells: [Cell::Empty; 42],
            player1: true,
            state: GameState::Playing,
            moves: 0,
        }
    }

    /// Read the move counter.
    pub fn moves(&self) -> (m: usize)
        ensures
            m == self.moves_played(),
    {
        self.moves
    }

    /// Read the cell at offset `idx` of the row-major array.
    pub fn cell_at_index(&self, idx: usize) -> (c: Cell)
        requires
            idx < CELL_COUNT,
        ensures
            c == self@[idx as int],
    {
        self.cells[idx]
    }

    /// Read the cell at column `x`, row `y`.
    pub fn cell_at(&self, x: usize, y: usize) -> (c: Cell)
        requires
            x < WIDTH,
            y < HEIGHT,
        ensures
            c == self@[cell_index(x as int, y as int)],
    {
        self.cells[x + y * WIDTH]
    }

    /// Claim cell `(x, y)` for player 1 and count the call. Overwrites
    /// whatever the cell held; legality is the caller's concern.
    pub fn set_player1(&mut self, x: usize, y: usize)
        requires
            x < WIDTH,
            y < HEIGHT,
            old(self).moves_played() < usize::MAX,
        ensures
            final(self)@ == place_spec(old(self)@, x as int, y as int, Cell::Player1),
            final(self)@[cell_index(x as int, y as int)] == Cell::Player1,
            forall|i: int|
                0 <= i < CELL_COUNT && i != cell_index(x as int, y as int)
                    ==> final(self)@[i] == old(self)@[i],
            final(self).moves_played() == old(self).moves_played() + 1,
            final(self).active_player1() == old(self).active_player1(),
            final(self).game_state() == old(self).game_state(),
    {
        self.cells[x + y * WIDTH] = Cell::Player1;
        self.moves = self.moves + 1;
    }

    /// Claim cell `(x, y)` for player 2 and count the call. Overwrites
    /// whatever the cell held; legality is the caller's concern.
    pub fn set_player2(&mut self, x: usize, y: usize)
        requires
            x < WIDTH,
            y < HEIGHT,
            old(self).moves_played() < usize::MAX,
        ensures
            final(self)@ == place_spec(old(self)@, x as int, y as int, Cell::Player2),
            final(self)@[cell_index(x as int, y as int)] == Cell::Player2,
            forall|i: int|
                0 <= i < CELL_COUNT && i != cell_index(x as int, y as int)
                    ==> final(self)@[i] == old(self)@[i],
            final(self).moves_played() == old(self).moves_played() + 1,
            final(self).active_player1() == old(self).active_player1(),
            final(self).game_state() == old(self).game_state(),
    {
        self.cells[x + y * WIDTH] = Cell::Player2;
        self.moves = self.moves + 1;
    }
}

/// Splitting a cell offset back into column and row recovers exactly the
/// pair the offset was computed from: `cell_index(x, y) % WIDTH == x` and
/// `cell_index(x, y) / WIDTH == y`, and the offset is in bounds.
pub proof fn lemma_index_roundtrip(x: int, y: int)
    requires
        0 <= x < WIDTH,
        0 <= y < HEIGHT,
    ensures
        0 <= cell_index(x, y) < CELL_COUNT,
        cell_index(x, y) % (WIDTH as int) == x,
        cell_index(x, y) / (WIDTH as int) == y,
{
    vstd::arithmetic::div_mod::lemma_fundamental_div_mod_converse(
        cell_index(x, y),
        WIDTH as int,
        y,
        x,
    );
}

/// Every in-bounds cell offset comes from exactly one in-bounds `(x, y)`
/// pair, namely `(idx % WIDTH, idx / WIDTH)`.
pub proof fn lemma_index_inverse(idx: int)
    requires
        0 <= idx < CELL_COUNT,
    ensures
        0 <= idx % (WIDTH as int) < WIDTH,
        0 <= idx / (WIDTH as int) < HEIGHT,
        cell_index(idx % (WIDTH as int), idx / (WIDTH as int)) == idx,
{
    vstd::arithmetic::div_mod::lemma_fundamental_div_mod(idx, WIDTH as int);
    vstd::arithmetic::div_mod::lemma_mod_pos_bound(idx, WIDTH as int);
}

/// Distinct in-bounds positions occupy distinct offsets of the cell array.
pub proof fn lemma_index_injective(x1: int, y1: int, x2: int, y2: int)
    requires
        0 <= x1 < WIDTH,
        0 <= y1 < HEIGHT,
        0 <= x2 < WIDTH,
        0 <= y2 < HEIGHT,
        cell_index(x1, y1) == cell_index(x2, y2),
    ensures
        x1 == x2,
        y1 == y2,
{
    lemma_index_roundtrip(x1, y1);
    lemma_index_roundtrip(x2, y2);
}

/// A placement changes exactly one cell: position `(x, y)` takes the new
/// occupant, every other position keeps its occupant, and the grid keeps
/// its length.
pub proof fn lemma_place_updates_one_cell(cells: Seq<Cell>, x: int, y: int, c: Cell)
    requires
        cells.len() == CELL_COUNT,
        0 <= x < WIDTH,
        0 <= y < HEIGHT,
    ensures
        place_spec(cells, x, y, c).len() == CELL_COUNT,
        place_spec(cells, x, y, c)[cell_index(x, y)] == c,
        forall|i: int|
            0 <= i < CELL_COUNT && i != cell_index(x, y) ==> place_spec(cells, x, y, c)[i]
                == cells[i],
{
    lemma_index_roundtrip(x, y);
}

/// Placing twice at the same position leaves the cell holding the most
/// recent occupant, as if the first placement had never happened.
pub proof fn lemma_place_overwrites(cells: Seq<Cell>, x: int, y: int, c1: Cell, c2: Cell)
    requires
        cells.len() == CELL_COUNT,
        0 <= x < WIDTH,
        0 <= y < HEIGHT,
    ensures
        place_spec(place_spec(cells, x, y, c1), x, y, c2) == place_spec(cells, x, y, c2),
{
    lemma_index_roundtrip(x, y);
    assert(place_spec(place_spec(cells, x, y, c1), x, y, c2) =~= place_spec(cells, x, y, c2));
}

} // verus!
