use tic_tac_toe::board::{
    check_for_draw, check_for_win, check_triplet, check_triplets, get_index_from_position,
    get_position_from_index, next_turn, N, O, X,
};

#[test]
fn _get_index_from_position() {
    assert_eq!(get_index_from_position((0, 0)), 0);
    assert_eq!(get_index_from_position((0, 1)), 1);
    assert_eq!(get_index_from_position((0, 2)), 2);
    assert_eq!(get_index_from_position((1, 0)), 3);
    assert_eq!(get_index_from_position((1, 1)), 4);
    assert_eq!(get_index_from_position((1, 2)), 5);
    assert_eq!(get_index_from_position((2, 0)), 6);
    assert_eq!(get_index_from_position((2, 1)), 7);
    assert_eq!(get_index_from_position((2, 2)), 8);
}

#[test]
fn _next_turn() {
    let mut b = [
        O, O, N,
        X, N, N,
        N, N, N,
    ];
    assert_eq!(next_turn(&mut b, (2, 2), X), O);
    assert_eq!(next_turn(&mut b, (0, 0), X), X);
}

#[test]
fn _check_for_draw() {
    let mut b = [
        O, O, X,
        X, O, O,
        O, X, X,
    ];
    assert_eq!(check_for_draw(&mut b), true);
}

#[test]
fn _check_triplet() {
    let mut b = [
        O, O, X,
        X, O, O,
        O, X, O,
    ];
    assert_eq!(check_triplet(&mut b, [0, 4, 8]), true);
    assert_eq!(check_triplet(&mut b, [0, 1, 2]), false);
    assert_eq!(check_triplet(&mut b, [0, 3, 6]), false);
    assert_eq!(check_triplet(&mut b, [6, 7, 8]), false);
}

#[test]
fn _check_triplets() {
    let mut b = [
        O, O, X,
        X, O, O,
        O, X, O,
    ];
    assert_eq!(check_triplets(&mut b, &[[0, 1, 2], [3, 4, 5], [6, 7, 8]]), false);
    assert_eq!(check_triplets(&mut b, &[[0, 1, 2], [1, 4, 7], [2, 4, 6]]), false);
    assert_eq!(check_triplets(&mut b, &[[0, 1, 2], [1, 4, 7], [0, 4, 8]]), true);
}

#[test]
fn _check_for_win() {
    let mut b = [
        O, O, X,
        X, O, O,
        O, X, O,
    ];
    assert_eq!(check_for_win(&mut b, (2, 2)), true);
    assert_eq!(check_for_win(&mut b, (0, 1)), false);
    assert_eq!(check_for_win(&mut b, (2, 1)), false);
}

#[test]
fn place_on_empty_flips_turn_and_wins_nothing() {
    let mut b = [
        O, O, X,
        X, N, N,
        N, N, N,
    ];
    assert_eq!(next_turn(&mut b, (2, 2), X), O);
    assert_eq!(b[8], X);
    assert_eq!(check_for_win(&mut b, (2, 2)), false);
}

#[test]
fn place_on_occupied_changes_nothing() {
    let mut b = [
        O, O, X,
        X, N, N,
        N, N, X,
    ];
    assert_eq!(next_turn(&mut b, (0, 0), X), X);
    assert_eq!(b[0], O);
    assert_eq!(b, [O, O, X, X, N, N, N, N, X]);
}

#[test]
fn full_board_without_line_is_a_draw_not_a_win() {
    let mut b = [
        X, O, X,
        X, O, O,
        O, X, X,
    ];
    assert_eq!(check_for_draw(&mut b), true);
    for row in 0..3 {
        for col in 0..3 {
            assert_eq!(check_for_win(&mut b, (row, col)), false);
        }
    }
}

#[test]
fn board_with_empty_cell_is_no_draw() {
    let mut b = [
        O, O, X,
        X, N, N,
        N, N, N,
    ];
    assert_eq!(check_for_draw(&mut b), false);
}

#[test]
fn win_detected_only_through_cursor_lines() {
    let mut b = [
        O, O, O,
        X, X, N,
        N, N, N,
    ];
    assert_eq!(check_for_win(&mut b, (0, 2)), true);
    assert_eq!(check_for_win(&mut b, (1, 2)), false);
    assert_eq!(check_for_win(&mut b, (2, 0)), false);
}

#[test]
fn position_and_index_round_trip() {
    for index in 0..9 {
        let position = get_position_from_index(index);
        assert!(position.0 >= 0 && position.0 <= 2);
        assert!(position.1 >= 0 && position.1 <= 2);
        assert_eq!(get_index_from_position(position), index);
    }
    for row in 0..3 {
        for col in 0..3 {
            let index = get_index_from_position((row, col));
            assert_eq!(get_position_from_index(index), (row, col));
        }
    }
}

#[test]
fn next_turn_hands_back_to_x() {
    let mut b = [N, N, N, N, N, N, N, N, N];
    assert_eq!(next_turn(&mut b, (0, 0), O), X);
    assert_eq!(b[0], O);
}
