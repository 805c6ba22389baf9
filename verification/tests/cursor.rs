use tic_tac_toe::cursor::{move_cursor, move_down, move_left, move_right, move_up, Direction};

#[test]
fn _move_left() {
    assert_eq!(move_left((2, 2)), (2, 1));
    assert_eq!(move_left((2, 1)), (2, 0));
    assert_eq!(move_left((2, 0)), (2, 0));
    assert_eq!(move_left((0, 0)), (0, 0));
}

#[test]
fn _move_right() {
    assert_eq!(move_right((2, 2)), (2, 2));
    assert_eq!(move_right((2, 1)), (2, 2));
    assert_eq!(move_right((2, 0)), (2, 1));
    assert_eq!(move_right((0, 0)), (0, 1));
}

#[test]
fn _move_up() {
    assert_eq!(move_up((2, 2)), (1, 2));
    assert_eq!(move_up((2, 1)), (1, 1));
    assert_eq!(move_up((2, 0)), (1, 0));
    assert_eq!(move_up((0, 0)), (0, 0));
}

#[test]
fn _move_down() {
    assert_eq!(move_down((2, 2)), (2, 2));
    assert_eq!(move_down((2, 1)), (2, 1));
    assert_eq!(move_down((2, 0)), (2, 0));
    assert_eq!(move_down((0, 0)), (1, 0));
}

#[test]
fn move_cursor_matches_each_direction() {
    assert_eq!(move_cursor((1, 1), Direction::Up), (0, 1));
    assert_eq!(move_cursor((1, 1), Direction::Down), (2, 1));
    assert_eq!(move_cursor((1, 1), Direction::Left), (1, 0));
    assert_eq!(move_cursor((1, 1), Direction::Right), (1, 2));
}

#[test]
fn move_cursor_clamps_at_every_edge() {
    assert_eq!(move_cursor((0, 1), Direction::Up), (0, 1));
    assert_eq!(move_cursor((2, 1), Direction::Down), (2, 1));
    assert_eq!(move_cursor((1, 0), Direction::Left), (1, 0));
    assert_eq!(move_cursor((1, 2), Direction::Right), (1, 2));
}
