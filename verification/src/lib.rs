//! A fixed-size Connect-Four-shaped board: a 6-row by 7-column grid of
//! cells, each empty or claimed by one of two players, together with an
//! active-player flag, a coarse game-state tag and a move counter.
//!
//! The board itself is a plain data holder: placement overwrites a cell
//! and counts the call, and rendering is computed as a list of absolute
//! screen positions and colors that a terminal front end can draw.

pub mod board;
pub mod render;
