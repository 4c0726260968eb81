//! Rendering as data: the verified part of drawing the board computes,
//! for an anchor cursor position, where on the screen each cell goes and
//! in which colors, leaving only the terminal writes to the caller.
//!
//! Terminal rows grow downward while the board's rows grow upward (row 0
//! is the bottom of the board), so the screen row of a cell is the anchor
//! row *minus* the cell's board row.

use vstd::prelude::*;

verus! {

use crate::board::ArrayBoard;
use crate::board::Cell;
use crate::board::CELL_COUNT;
use crate::board::HEIGHT;
use crate::board::WIDTH;
use crate::board::cell_index;

/// The glyph printed for every cell; occupancy shows only in the colors.
pub const CELL_GLYPH: char = '0';

/// The palette the renderer draws from, named independently of any one
/// terminal library so that the color choice itself is part of the
/// verified plan.
#[derive(Debug, Clone, Copy, PartialEq, Eq, Structural)]
pub enum BoardColor {
    DarkRed,
    Red,
    DarkYellow,
    Yellow,
    DarkGrey,
    White,
}

/// Background color of a cell: dark red for player 1, dark yellow for
/// player 2, dark grey for an empty cell.
pub open spec fn background_spec(c: Cell) -> BoardColor {
    match c {
        Cell::Player1 => BoardColor::DarkRed,
        Cell::Player2 => BoardColor::DarkYellow,
        Cell::Empty => BoardColor::DarkGrey,
    }
}

/// Foreground color of a cell: red for player 1, yellow for player 2,
/// white for an empty cell.
pub open spec fn foreground_spec(c: Cell) -> BoardColor {
    match c {
        Cell::Player1 => BoardColor::Red,
        Cell::Player2 => BoardColor::Yellow,
        Cell::Empty => BoardColor::White,
    }
}

/// Look up the background color of the palette for a cell.
pub fn background_of(c: Cell) -> (r: BoardColor)
    ensures
        r == background_spec(c),
{
    match c {
        Cell::Player1 => BoardColor::DarkRed,
        Cell::Player2 => BoardColor::DarkYellow,
        Cell::Empty => BoardColor::DarkGrey,
    }
}

/// Look up the foreground color of the palette for a cell.
pub fn foreground_of(c: Cell) -> (r: BoardColor)
    ensures
        r == foreground_spec(c),
{
    match c {
        Cell::Player1 => BoardColor::Red,
        Cell::Player2 => BoardColor::Yellow,
        Cell::Empty => BoardColor::White,
    }
}

/// One cell's drawing order: the absolute screen position to move the
/// cursor to, and the colors to style the glyph with.
#[derive(Debug, Clone, Copy, PartialEq, Eq, Structural)]
pub struct CellDraw {
    pub col: u16,
    pub row: u16,
    pub background: BoardColor,
    pub foreground: BoardColor,
}

impl ArrayBoard {
    /// Compute the full drawing plan for this board, anchored at the
    /// cursor position `(origin_x, origin_y)` captured just below the
    /// space reserved for the grid. Entry `i` of the plan draws the cell
    /// at offset `i` of the grid, and the cell at position `(x, y)` is
    /// drawn at screen position `(origin_x + x, origin_y - y)`.
    pub fn render_plan(&self, origin_x: u16, origin_y: u16) -> (plan: Vec<CellDraw>)
        requires
            origin_y >= HEIGHT - 1,
            origin_x + WIDTH <= u16::MAX,
        ensures
            plan@.len() == CELL_COUNT,
            forall|i: int|
                #![trigger plan@[i]]
                0 <= i < CELL_COUNT ==> {
                    &&& plan@[i].col == origin_x + i % (WIDTH as int)
                    &&& plan@[i].row == origin_y - i / (WIDTH as int)
                    &&& plan@[i].background == background_spec(self@[i])
                    &&& plan@[i].foreground == foreground_spec(self@[i])
                },
            forall|x: int, y: int|
                #![trigger cell_index(x, y)]
                0 <= x < WIDTH && 0 <= y < HEIGHT ==> {
                    &&& plan@[cell_index(x, y)].col == origin_x + x
                    &&& plan@[cell_index(x, y)].row == origin_y - y
                    &&& plan@[cell_index(x, y)].background == background_spec(
                        self@[cell_index(x, y)],
                    )
                    &&& plan@[cell_index(x, y)].foreground == foreground_spec(
                        self@[cell_index(x, y)],
                    )
                },
    {
        let mut plan: Vec<CellDraw> = Vec::new();
        let mut idx: usize = 0;
        while idx < CELL_COUNT
            invariant
                idx <= CELL_COUNT,
                plan@.len() == idx,
                origin_y >= HEIGHT - 1,
                origin_x + WIDTH <= u16::MAX,
                forall|i: int|
                    #![trigger plan@[i]]
                    0 <= i < idx ==> {
                        &&& plan@[i].col == origin_x + i % (WIDTH as int)
                        &&& plan@[i].row == origin_y - i / (WIDTH as int)
                        &&& plan@[i].background == background_spec(self@[i])
                        &&& plan@[i].foreground == foreground_spec(self@[i])
                    },
            decreases CELL_COUNT - idx,
        {
            proof {
                crate::board::lemma_index_inverse(idx as int);
            }
            let cell = self.cell_at_index(idx);
            let draw = CellDraw {
                col: origin_x + (idx % WIDTH) as u16,
                row: origin_y - (idx / WIDTH) as u16,
                background: background_of(cell),
                foreground: foreground_of(cell),
            };
            plan.push(draw);
            idx = idx + 1;
        }
        proof {
            assert forall|x: int, y: int|
                0 <= x < WIDTH && 0 <= y < HEIGHT implies {
                &&& #[trigger] cell_index(x, y) < CELL_COUNT
                &&& 0 <= cell_index(x, y)
                &&& plan@[cell_index(x, y)].col == origin_x + x
                &&& plan@[cell_index(x, y)].row == origin_y - y
                &&& plan@[cell_index(x, y)].background == background_spec(self@[cell_index(x, y)])
                &&& plan@[cell_index(x, y)].foreground == foreground_spec(self@[cell_index(x, y)])
            } by {
                crate::board::lemma_index_roundtrip(x, y);
            }
        }
        plan
    }
}

/// The cursor position at which ordinary terminal output resumes after
/// the grid is drawn: one column past the grid's right edge, on the
/// anchor row, which is one row above the topmost drawn cell row.
pub fn resume_position(origin_x: u16, origin_y: u16) -> (p: (u16, u16))
    requires
        origin_x + WIDTH <= u16::MAX,
    ensures
        p.0 == origin_x + WIDTH,
        p.1 == origin_y,
{
    (origin_x + (WIDTH as u16), origin_y)
}

/// The header printed above the grid: the column indices `0` to `6`,
/// concatenated with no separator.
pub fn header_line() -> (s: String)
    ensures
        s@ == seq!['0', '1', '2', '3', '4', '5', '6'],
        s@.len() == WIDTH,
{
    let s: String = "0123456".to_string();
    proof {
        reveal_strlit("0123456");
        assert(s@ =~= seq!['0', '1', '2', '3', '4', '5', '6']);
    }
    s
}

} // verus!
