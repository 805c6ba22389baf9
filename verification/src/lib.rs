//! A verified board engine for two-player tic-tac-toe.
//!
//! The engine owns the 9-cell board, cursor movement on the 3x3 grid,
//! move placement with turn alternation, and win/draw detection over the
//! eight lines (three rows, three columns, two diagonals). Terminal
//! rendering and keyboard input live outside the engine and hand it plain
//! values.

pub mod board;
pub mod cursor;
pub mod session;
