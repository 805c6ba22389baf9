//! The per-session state machine: board, cursor and turn, driven one input
//! event at a time. The surrounding loop performs the input and output and
//! hands each event to `Session::step`.

use vstd::prelude::*;

use crate::board::{
    board_full, check_for_draw, check_for_win, next_turn, placed_board, placed_turn, index_of,
    wins_at, N, X,
};
use crate::cursor::{move_cursor, moved_position, valid_position, Direction};

verus! {

/// An input event inside a session.
#[derive(Clone, Copy, PartialEq, Eq, Structural, Debug)]
pub enum Key {
    Up,
    Down,
    Left,
    Right,
    Select,
    Quit,
    Other,
}

/// Where a session stands: still in progress, won, or drawn. Won and Drawn
/// are terminal.
#[derive(Clone, Copy, PartialEq, Eq, Structural, Debug)]
pub enum Status {
    InProgress,
    Won,
    Drawn,
}

/// The status of a board as the loop sees it: a win is checked against the
/// cursor position first, and a draw only once no line through the cursor
/// wins.
pub open spec fn status_of(b: Seq<char>, position: (i32, i32)) -> Status {
    if wins_at(b, position.0 as int, position.1 as int) {
        Status::Won
    } else if board_full(b) {
        Status::Drawn
    } else {
        Status::InProgress
    }
}

/// One game session: the nine cells, the cursor, and whose turn it is.
pub struct Session {
    /// The board cells in row-major order.
    pub board: [char; 9],
    /// The cursor position, kept on the grid.
    pub position: (i32, i32),
    /// The mark placed by the next successful move.
    pub turn: char,
}

impl Session {
    /// A session is well formed when its cursor is on the grid.
    pub open spec fn wf(self) -> bool {
        valid_position(self.position)
    }

    /// Starts a fresh session: an empty board, the cursor at the centre,
    /// and `X` to move.
    pub fn new() -> (s: Session)
        ensures
            s.wf(),
            forall|i: int| 0 <= i < 9 ==> s.board@[i] == N,
            s.position == (1i32, 1i32),
            s.turn == X,
    {
        Session { board: [N, N, N, N, N, N, N, N, N], position: (1, 1), turn: X }
    }

    /// Reports the session's status against the current cursor position:
    /// `Won` when a line through the cursor wins, otherwise `Drawn` when
    /// the board is full, otherwise `InProgress`.
    pub fn status(&self) -> (st: Status)
        requires
            self.wf(),
        ensures
            st == status_of(self.board@, self.position),
    {
        if check_for_win(&self.board, self.position) {
            Status::Won
        } else if check_for_draw(&self.board) {
            Status::Drawn
        } else {
            Status::InProgress
        }
    }

    /// Applies one input event: the arrow keys move the cursor, `Select`
    /// places the current mark at the cursor, and everything else leaves
    /// the state alone. Returns true exactly on `Quit`, which abandons the
    /// session.
    pub fn step(&mut self, key: Key) -> (quit: bool)
        requires
            old(self).wf(),
        ensures
            final(self).wf(),
            quit == (key == Key::Quit),
            match key {
                Key::Up => final(self).position == moved_position(
                    old(self).position,
                    Direction::Up,
                ) && final(self).board == old(self).board && final(self).turn == old(self).turn,
                Key::Down => final(self).position == moved_position(
                    old(self).position,
                    Direction::Down,
                ) && final(self).board == old(self).board && final(self).turn == old(self).turn,
                Key::Left => final(self).position == moved_position(
                    old(self).position,
                    Direction::Left,
                ) && final(self).board == old(self).board && final(self).turn == old(self).turn,
                Key::Right => final(self).position == moved_position(
                    old(self).position,
                    Direction::Right,
                ) && final(self).board == old(self).board && final(self).turn == old(self).turn,
                Key::Select => {
                    let index = index_of(
                        old(self).position.0 as int,
                        old(self).position.1 as int,
                    );
                    final(self).board@ == placed_board(old(self).board@, index, old(self).turn)
                        && final(self).turn == placed_turn(old(self).board@, index, old(self).turn)
                        && final(self).position == old(self).position
                },
                Key::Quit => *final(self) == *old(self),
                Key::Other => *final(self) == *old(self),
            },
    {
        match key {
            Key::Up => {
                self.position = move_cursor(self.position, Direction::Up);
                false
            }
            Key::Down => {
                self.position = move_cursor(self.position, Direction::Down);
                false
            }
            Key::Left => {
                self.position = move_cursor(self.position, Direction::Left);
                false
            }
            Key::Right => {
                self.position = move_cursor(self.position, Direction::Right);
                false
            }
            Key::Select => {
                self.turn = next_turn(&mut self.board, self.position, self.turn);
                false
            }
            Key::Quit => true,
            Key::Other => false,
        }
    }
}

/// A choice made at the menu: start a session, quit the program, or do
/// nothing.
#[derive(Clone, Copy, PartialEq, Eq, Structural, Debug)]
pub enum MenuChoice {
    NewGame,
    Quit,
    Ignore,
}

/// The menu's reaction to one key: `n` starts a new game, `q` quits, and
/// every other key is ignored.
pub fn menu_choice(key: char) -> (m: MenuChoice)
    ensures
        key == 'n' ==> m == MenuChoice::NewGame,
        key == 'q' ==> m == MenuChoice::Quit,
        key != 'n' && key != 'q' ==> m == MenuChoice::Ignore,
{
    if key == 'n' {
        MenuChoice::NewGame
    } else if key == 'q' {
        MenuChoice::Quit
    } else {
        MenuChoice::Ignore
    }
}

/// The three characters of one rendered board tile: the cell's mark padded
/// with spaces, or bracketed when the cursor rests on it.
pub fn tile_chars(cell: char, selected: bool) -> (t: (char, char, char))
    ensures
        selected ==> t == ('[', cell, ']'),
        !selected ==> t == (' ', cell, ' '),
{
    if selected {
        ('[', cell, ']')
    } else {
        (' ', cell, ' ')
    }
}

} // verus!
