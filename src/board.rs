//! The 3x3 board and its terminal conditions.
//!
//! A board is nine cells, indexed left to right, top to bottom
//! (`index = row * 3 + col`). A cell holds `0` when empty, or the
//! identifier (`1` or `2`) of the player who took it.
use vstd::prelude::*;

verus! {

/// The identifier stored in a cell that nobody has taken.
pub const EMPTY: u8 = 0;

/// A player identifier is `1` or `2`.
pub open spec fn is_player(p: u8) -> bool {
    p == 1 || p == 2
}

/// Every cell holds `EMPTY` or a player identifier.
pub open spec fn valid_board(b: Seq<u8>) -> bool {
    &&& b.len() == 9
    &&& forall|i: int| 0 <= i < 9 ==> #[trigger] b[i] <= 2
}

/// The `k`-th of the eight winning lines (three rows, three columns,
/// two diagonals), as a triple of cell indices.
pub open spec fn winning_line(k: int) -> (int, int, int) {
    if k == 0 {
        (0, 1, 2)
    } else if k == 1 {
        (3, 4, 5)
    } else if k == 2 {
        (6, 7, 8)
    } else if k == 3 {
        (0, 3, 6)
    } else if k == 4 {
        (1, 4, 7)
    } else if k == 5 {
        (2, 5, 8)
    } else if k == 6 {
        (0, 4, 8)
    } else {
        (2, 4, 6)
    }
}

/// Player `p` holds all three cells of line `k`.
pub open spec fn holds_line(b: Seq<u8>, p: u8, k: int) -> bool {
    let (x, y, z) = winning_line(k);
    b[x] == p && b[y] == p && b[z] == p
}

/// Player `p` holds at least one of the eight winning lines.
pub open spec fn has_won(b: Seq<u8>, p: u8) -> bool {
    exists|k: int| 0 <= k < 8 && #[trigger] holds_line(b, p, k)
}

/// No cell of the board is empty.
pub open spec fn is_full(b: Seq<u8>) -> bool {
    forall|i: int| 0 <= i < b.len() ==> #[trigger] b[i] != EMPTY
}

/// The player whose turn follows `p`'s.
pub open spec fn other_player(p: u8) -> u8 {
    if p == 1 {
        2
    } else {
        1
    }
}

/// The board at the start of a game: nine empty cells.
pub open spec fn empty_board() -> Seq<u8> {
    Seq::new(9, |i: int| EMPTY)
}

/// Whether player `player_number` has completed a row, a column or a
/// diagonal of `the_board`.
pub fn player_has_won(player_number: u8, the_board: &[u8; 9]) -> (r: bool)
    ensures
        r == has_won(the_board@, player_number),
{
    let b = the_board;
    let p = player_number;
    let won = (b[0] == p && b[1] == p && b[2] == p)
        || (b[3] == p && b[4] == p && b[5] == p)
        || (b[6] == p && b[7] == p && b[8] == p)
        || (b[0] == p && b[3] == p && b[6] == p)
        || (b[1] == p && b[4] == p && b[7] == p)
        || (b[2] == p && b[5] == p && b[8] == p)
        || (b[0] == p && b[4] == p && b[8] == p)
        || (b[2] == p && b[4] == p && b[6] == p);
    proof {
        if won {
            if holds_line(b@, p, 0) {
            } else if holds_line(b@, p, 1) {
            } else if holds_line(b@, p, 2) {
            } else if holds_line(b@, p, 3) {
            } else if holds_line(b@, p, 4) {
            } else if holds_line(b@, p, 5) {
            } else if holds_line(b@, p, 6) {
            } else {
                assert(holds_line(b@, p, 7));
            }
        }
    }
    won
}

/// Whether every cell of `the_board` has been taken.
pub fn game_is_draw(the_board: &[u8; 9]) -> (r: bool)
    ensures
        r == is_full(the_board@),
{
    let mut i: usize = 0;
    while i < 9
        invariant
            i <= 9,
            the_board@.len() == 9,
            forall|j: int| 0 <= j < i ==> #[trigger] the_board@[j] != EMPTY,
        decreases 9 - i,
    {
        if the_board[i] == EMPTY {
            return false;
        }
        i = i + 1;
    }
    true
}

/// The player who moves after `player`: `1` becomes `2`, anything else `1`.
pub fn toggle_player(player: u8) -> (r: u8)
    ensures
        r == other_player(player),
{
    if player == 1 {
        2
    } else {
        1
    }
}

/// No player wins on the empty board.
pub proof fn lemma_empty_board_has_no_winner(p: u8)
    requires
        is_player(p),
    ensures
        !has_won(empty_board(), p),
{
    assert forall|k: int| 0 <= k < 8 implies !#[trigger] holds_line(empty_board(), p, k) by {
        let (x, y, z) = winning_line(k);
        assert(empty_board()[x] == EMPTY);
    }
}

/// Toggling the current player twice gives the player back.
pub proof fn lemma_toggle_twice(p: u8)
    requires
        is_player(p),
    ensures
        other_player(other_player(p)) == p,
        other_player(p) != p,
        is_player(other_player(p)),
{
}

} // verus!
