//! Cursor movement on the 3x3 grid: one step per key, clamped at the
//! edges, no wraparound.

use vstd::prelude::*;

verus! {

/// One step of cursor movement.
#[derive(Clone, Copy, PartialEq, Eq, Structural, Debug)]
pub enum Direction {
    Up,
    Down,
    Left,
    Right,
}

/// A position is a (row, col) pair; both coordinates stay in [0, 2].
pub open spec fn valid_position(p: (i32, i32)) -> bool {
    0 <= p.0 <= 2 && 0 <= p.1 <= 2
}

/// Where the cursor lands after one step: clamped at the grid edges.
pub open spec fn moved_position(p: (i32, i32), d: Direction) -> (i32, i32) {
    match d {
        Direction::Left => if p.1 > 0 { (p.0, (p.1 - 1) as i32) } else { p },
        Direction::Right => if p.1 < 2 { (p.0, (p.1 + 1) as i32) } else { p },
        Direction::Up => if p.0 > 0 { ((p.0 - 1) as i32, p.1) } else { p },
        Direction::Down => if p.0 < 2 { ((p.0 + 1) as i32, p.1) } else { p },
    }
}

pub fn move_left(position: (i32, i32)) -> (r: (i32, i32))
    ensures
        r == moved_position(position, Direction::Left),
{
    if position.1 > 0 {
        (position.0, position.1 - 1)
    } else {
        position
    }
}

pub fn move_right(position: (i32, i32)) -> (r: (i32, i32))
    ensures
        r == moved_position(position, Direction::Right),
{
    if position.1 < 2 {
        (position.0, position.1 + 1)
    } else {
        position
    }
}

pub fn move_up(position: (i32, i32)) -> (r: (i32, i32))
    ensures
        r == moved_position(position, Direction::Up),
{
    if position.0 > 0 {
        (position.0 - 1, position.1)
    } else {
        position
    }
}

pub fn move_down(position: (i32, i32)) -> (r: (i32, i32))
    ensures
        r == moved_position(position, Direction::Down),
{
    if position.0 < 2 {
        (position.0 + 1, position.1)
    } else {
        position
    }
}

/// Moves the cursor one step in the given direction, staying on the grid.
pub fn move_cursor(position: (i32, i32), direction: Direction) -> (r: (i32, i32))
    ensures
        r == moved_position(position, direction),
{
    match direction {
        Direction::Left => move_left(position),
        Direction::Right => move_right(position),
        Direction::Up => move_up(position),
        Direction::Down => move_down(position),
    }
}

/// Law: from a position on the grid, a move never leaves [0,2]x[0,2], and a
/// move against an edge (left at column 0, right at column 2, up at row 0,
/// down at row 2) leaves the position unchanged.
pub proof fn lemma_move_cursor_in_bounds(p: (i32, i32), d: Direction)
    requires
        valid_position(p),
    ensures
        valid_position(moved_position(p, d)),
        d == Direction::Left && p.1 == 0 ==> moved_position(p, d) == p,
        d == Direction::Right && p.1 == 2 ==> moved_position(p, d) == p,
        d == Direction::Up && p.0 == 0 ==> moved_position(p, d) == p,
        d == Direction::Down && p.0 == 2 ==> moved_position(p, d) == p,
{
}

} // verus!
