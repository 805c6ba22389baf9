//! The board engine: nine cells in row-major order, win detection over the
//! eight lines through a cell, draw detection, and move placement.

use vstd::prelude::*;

use crate::cursor::valid_position;

verus! {

/// The mark of an empty cell.
pub const N: char = '-';

/// The first player's mark.
pub const X: char = 'X';

/// The second player's mark.
pub const O: char = 'O';

/// The board index of a (row, col) position, in row-major order.
pub open spec fn index_of(row: int, col: int) -> int {
    row * 3 + col
}

/// The row of a board index.
pub open spec fn row_of(index: int) -> int {
    index / 3
}

/// The column of a board index.
pub open spec fn col_of(index: int) -> int {
    index % 3
}

/// A board with no empty cell left.
pub open spec fn board_full(b: Seq<char>) -> bool {
    forall|i: int| 0 <= i < 9 ==> b[i] != N
}

/// Converts a (row, col) position to its board index.
pub fn get_index_from_position(position: (i32, i32)) -> (r: i32)
    requires
        valid_position(position),
    ensures
        r == index_of(position.0 as int, position.1 as int),
        0 <= r < 9,
{
    position.0 * 3 + position.1
}

/// Converts a board index back to its (row, col) position.
pub fn get_position_from_index(index: i32) -> (r: (i32, i32))
    requires
        0 <= index < 9,
    ensures
        r.0 == row_of(index as int),
        r.1 == col_of(index as int),
        valid_position(r),
{
    (index / 3, index % 3)
}

/// Law: (row, col) -> row * 3 + col is a bijection between the nine grid
/// positions [0,2]x[0,2] and the nine board indices [0,8], with
/// (row_of, col_of) as its inverse.
pub proof fn lemma_position_index_bijection()
    ensures
        forall|r: int, c: int|
            0 <= r <= 2 && 0 <= c <= 2 ==> 0 <= #[trigger] index_of(r, c) < 9,
        forall|r: int, c: int|
            0 <= r <= 2 && 0 <= c <= 2 ==> row_of(#[trigger] index_of(r, c)) == r
                && col_of(index_of(r, c)) == c,
        forall|i: int|
            0 <= i < 9 ==> #[trigger] index_of(row_of(i), col_of(i)) == i
                && 0 <= row_of(i) <= 2 && 0 <= col_of(i) <= 2,
{
}

/// Three cells win when none is empty and all three hold the same mark.
pub open spec fn cells_win(b: Seq<char>, i: int, j: int, k: int) -> bool {
    b[i] != N && b[i] == b[j] && b[j] == b[k]
}

/// A triplet of board indices, each on the board.
pub open spec fn valid_triplet(t: [i32; 3]) -> bool {
    0 <= t[0] < 9 && 0 <= t[1] < 9 && 0 <= t[2] < 9
}

/// Whether the triplet's three cells are a winning line on the board.
pub open spec fn triplet_wins(b: Seq<char>, t: [i32; 3]) -> bool {
    cells_win(b, t[0] as int, t[1] as int, t[2] as int)
}

/// Checks one triplet of cells for three identical non-empty marks.
pub fn check_triplet(board: &[char; 9], triplet: [i32; 3]) -> (r: bool)
    requires
        valid_triplet(triplet),
    ensures
        r == triplet_wins(board@, triplet),
{
    let tiles = [
        board[triplet[0] as usize],
        board[triplet[1] as usize],
        board[triplet[2] as usize],
    ];

    if tiles[0] == N {
        return false;
    }
    if tiles[1] == N {
        return false;
    }
    if tiles[2] == N {
        return false;
    }

    if tiles[0] != tiles[1] {
        return false;
    }

    if tiles[1] != tiles[2] {
        return false;
    }

    true
}

/// Whether some triplet in the sequence is a winning line on the board.
pub open spec fn some_triplet_wins(b: Seq<char>, ts: Seq<[i32; 3]>) -> bool {
    exists|t: int| 0 <= t < ts.len() && triplet_wins(b, #[trigger] ts[t])
}

/// Checks a group of triplets; true when at least one of them wins.
pub fn check_triplets(board: &[char; 9], triplets: &[[i32; 3]]) -> (r: bool)
    requires
        forall|t: int| 0 <= t < triplets@.len() ==> valid_triplet(#[trigger] triplets@[t]),
    ensures
        r == some_triplet_wins(board@, triplets@),
{
    let mut t: usize = 0;
    while t < triplets.len()
        invariant
            t <= triplets@.len(),
            forall|j: int| 0 <= j < triplets@.len() ==> valid_triplet(#[trigger] triplets@[j]),
            forall|j: int| 0 <= j < t ==> !triplet_wins(board@, #[trigger] triplets@[j]),
        decreases triplets@.len() - t,
    {
        if check_triplet(board, triplets[t]) {
            return true;
        }
        t = t + 1;
    }
    false
}

/// The cells of line `l`: lines 0 to 2 are the rows, 3 to 5 the columns,
/// 6 and 7 the two diagonals.
pub open spec fn line_triplet(l: int) -> [i32; 3] {
    if l == 0 {
        [0i32, 1i32, 2i32]
    } else if l == 1 {
        [3i32, 4i32, 5i32]
    } else if l == 2 {
        [6i32, 7i32, 8i32]
    } else if l == 3 {
        [0i32, 3i32, 6i32]
    } else if l == 4 {
        [1i32, 4i32, 7i32]
    } else if l == 5 {
        [2i32, 5i32, 8i32]
    } else if l == 6 {
        [0i32, 4i32, 8i32]
    } else {
        [2i32, 4i32, 6i32]
    }
}

/// Whether line `l` wins on the board.
pub open spec fn line_wins(b: Seq<char>, l: int) -> bool {
    triplet_wins(b, line_triplet(l))
}

/// Whether line `l` passes through the cell at the given board index.
pub open spec fn line_through(l: int, cell: int) -> bool {
    line_triplet(l)[0] == cell || line_triplet(l)[1] == cell || line_triplet(l)[2] == cell
}

/// Whether at least one of the (up to four) lines through the given
/// position holds three identical non-empty marks.
pub open spec fn wins_at(b: Seq<char>, row: int, col: int) -> bool {
    exists|l: int| 0 <= l < 8 && line_through(l, index_of(row, col)) && line_wins(b, l)
}

/// When `ts` lists, as `ls` records, exactly the lines through a position,
/// scanning `ts` decides `wins_at` there.
proof fn lemma_triplets_decide_position(
    b: Seq<char>,
    row: int,
    col: int,
    ts: Seq<[i32; 3]>,
    ls: Seq<int>,
)
    requires
        ts.len() == ls.len(),
        forall|j: int| 0 <= j < ls.len() ==> 0 <= #[trigger] ls[j] < 8,
        forall|j: int|
            0 <= j < ls.len() ==> #[trigger] ts[j] == line_triplet(ls[j]) && line_through(
                ls[j],
                index_of(row, col),
            ),
        forall|l: int| 0 <= l < 8 && #[trigger] line_through(l, index_of(row, col)) ==> ls.contains(
            l,
        ),
    ensures
        some_triplet_wins(b, ts) == wins_at(b, row, col),
{
    if some_triplet_wins(b, ts) {
        let j = choose|j: int| 0 <= j < ts.len() && triplet_wins(b, #[trigger] ts[j]);
        assert(line_wins(b, ls[j]));
        assert(wins_at(b, row, col));
    }
    if wins_at(b, row, col) {
        let l = choose|l: int| 0 <= l < 8 && line_through(l, index_of(row, col)) && line_wins(b, l);
        assert(ls.contains(l));
        let j = choose|j: int| 0 <= j < ls.len() && ls[j] == l;
        assert(triplet_wins(b, ts[j]));
        assert(some_triplet_wins(b, ts));
    }
}

/// Checks only the lines through the given position for a win; a position
/// off the grid reports no win.
pub fn check_for_win(board: &[char; 9], position: (i32, i32)) -> (r: bool)
    ensures
        r == (valid_position(position) && wins_at(
            board@,
            position.0 as int,
            position.1 as int,
        )),
{
    match position {
        (0, 0) => {
            let lines = [[0, 1, 2], [0, 3, 6], [0, 4, 8]];
            let r = check_triplets(board, lines.as_slice());
            proof {
                lemma_triplets_decide_position(board@, 0, 0, lines@, seq![0int, 3int, 6int]);
            }
            r
        }
        (0, 1) => {
            let lines = [[0, 1, 2], [1, 4, 7]];
            let r = check_triplets(board, lines.as_slice());
            proof {
                lemma_triplets_decide_position(board@, 0, 1, lines@, seq![0int, 4int]);
            }
            r
        }
        (0, 2) => {
            let lines = [[0, 1, 2], [2, 5, 8], [2, 4, 6]];
            let r = check_triplets(board, lines.as_slice());
            proof {
                lemma_triplets_decide_position(board@, 0, 2, lines@, seq![0int, 5int, 7int]);
            }
            r
        }
        (1, 0) => {
            let lines = [[3, 4, 5], [0, 3, 6]];
            let r = check_triplets(board, lines.as_slice());
            proof {
                lemma_triplets_decide_position(board@, 1, 0, lines@, seq![1int, 3int]);
            }
            r
        }
        (1, 1) => {
            let lines = [[3, 4, 5], [1, 4, 7], [0, 4, 8], [2, 4, 6]];
            let r = check_triplets(board, lines.as_slice());
            proof {
                lemma_triplets_decide_position(
                    board@,
                    1,
                    1,
                    lines@,
                    seq![1int, 4int, 6int, 7int],
                );
            }
            r
        }
        (1, 2) => {
            let lines = [[3, 4, 5], [2, 5, 8]];
            let r = check_triplets(board, lines.as_slice());
            proof {
                lemma_triplets_decide_position(board@, 1, 2, lines@, seq![1int, 5int]);
            }
            r
        }
        (2, 0) => {
            let lines = [[6, 7, 8], [0, 3, 6], [2, 4, 6]];
            let r = check_triplets(board, lines.as_slice());
            proof {
                lemma_triplets_decide_position(board@, 2, 0, lines@, seq![2int, 3int, 7int]);
            }
            r
        }
        (2, 1) => {
            let lines = [[6, 7, 8], [1, 4, 7]];
            let r = check_triplets(board, lines.as_slice());
            proof {
                lemma_triplets_decide_position(board@, 2, 1, lines@, seq![2int, 4int]);
            }
            r
        }
        (2, 2) => {
            let lines = [[6, 7, 8], [2, 5, 8], [0, 4, 8]];
            let r = check_triplets(board, lines.as_slice());
            proof {
                lemma_triplets_decide_position(board@, 2, 2, lines@, seq![2int, 5int, 6int]);
            }
            r
        }
        _ => false,
    }
}

/// The other player's mark; any mark other than `X` hands the turn to `X`.
pub open spec fn other_mark(turn: char) -> char {
    if turn == X {
        O
    } else {
        X
    }
}

/// The board after a placement: the cell is taken when empty, and the
/// board is untouched when it is already occupied.
pub open spec fn placed_board(b: Seq<char>, index: int, turn: char) -> Seq<char> {
    if b[index] == N {
        b.update(index, turn)
    } else {
        b
    }
}

/// The turn after a placement: it flips exactly when the cell was empty.
pub open spec fn placed_turn(b: Seq<char>, index: int, turn: char) -> char {
    if b[index] == N {
        other_mark(turn)
    } else {
        turn
    }
}

/// Places the current player's mark at the cursor position. On an empty
/// cell the mark is set and the returned turn flips; on an occupied cell
/// nothing changes and the same turn is returned.
pub fn next_turn(board: &mut [char; 9], position: (i32, i32), turn: char) -> (r: char)
    requires
        valid_position(position),
    ensures
        final(board)@ == placed_board(
            old(board)@,
            index_of(position.0 as int, position.1 as int),
            turn,
        ),
        r == placed_turn(old(board)@, index_of(position.0 as int, position.1 as int), turn),
{
    let index = get_index_from_position(position) as usize;
    let mut next: char = turn;

    if board[index] == N {
        board[index] = turn;

        if turn == X {
            next = O;
        } else {
            next = X;
        }
    }

    next
}

/// Checks whether every cell is filled: a draw once a win is ruled out.
pub fn check_for_draw(board: &[char; 9]) -> (r: bool)
    ensures
        r == board_full(board@),
{
    let mut i: usize = 0;
    while i < 9
        invariant
            i <= 9,
            forall|j: int| 0 <= j < i ==> board@[j] != N,
        decreases 9 - i,
    {
        if board[i] == N {
            return false;
        }
        i = i + 1;
    }
    true
}

} // verus!
