//! The game as a state machine: one board, the player whose turn it is,
//! and the transition made by one line of input.
use vstd::prelude::*;

use crate::board::{
    empty_board, game_is_draw, has_won, holds_line, is_full, is_player,
    lemma_empty_board_has_no_winner, lemma_toggle_twice, other_player, player_has_won,
    toggle_player, valid_board, winning_line, EMPTY,
};
use crate::selection::{selection_outcome, take_turn, trimmed, MoveError};

verus! {

/// Where a game stands after a move.
#[derive(Clone, Copy, Debug, PartialEq, Eq, Structural)]
pub enum GameStatus {
    /// Nobody has won and a tile is still free: the other player moves next.
    InProgress,
    /// The player with this identifier holds a complete line.
    Won(u8),
    /// Every tile is taken and nobody holds a line.
    Draw,
}

/// The status after `mover` has played on `b`. A win is checked before a
/// full board, so that a winning last move is not called a draw.
pub open spec fn status_after(b: Seq<u8>, mover: u8) -> GameStatus {
    if has_won(b, mover) {
        GameStatus::Won(mover)
    } else if is_full(b) {
        GameStatus::Draw
    } else {
        GameStatus::InProgress
    }
}

/// A game of tic-tac-toe between players `1` and `2`.
pub struct GameState {
    board: [u8; 9],
    player: u8,
}

/// Giving a cell to `p` cannot complete a line for another player `q`.
proof fn lemma_move_keeps_other_lines(b: Seq<u8>, i: int, p: u8, q: u8)
    requires
        b.len() == 9,
        0 <= i < 9,
        p != q,
        !has_won(b, q),
    ensures
        !has_won(b.update(i, p), q),
{
    let nb = b.update(i, p);
    assert forall|k: int| 0 <= k < 8 implies !#[trigger] holds_line(nb, q, k) by {
        assert(!holds_line(b, q, k));
        let (x, y, z) = winning_line(k);
    }
}

impl GameState {
    /// The cells of the board.
    pub closed spec fn cells(&self) -> Seq<u8> {
        self.board@
    }

    /// The player whose turn it is, or who made the last move once the
    /// game is over.
    pub closed spec fn current(&self) -> u8 {
        self.player
    }

    /// The board holds only empty cells and player marks, the current
    /// player is `1` or `2`, and the other player holds no complete line.
    pub open spec fn wf(&self) -> bool {
        &&& valid_board(self.cells())
        &&& is_player(self.current())
        &&& !has_won(self.cells(), other_player(self.current()))
    }

    /// The status of the game: decided by the current player's lines, then
    /// by whether the board is full.
    pub open spec fn spec_status(&self) -> GameStatus {
        status_after(self.cells(), self.current())
    }

    /// A new game: an empty board, and player 1 to move.
    pub fn new() -> (r: GameState)
        ensures
            r.wf(),
            r.cells() == empty_board(),
            r.current() == 1,
            r.spec_status() == GameStatus::InProgress,
    {
        let r = GameState { board: [EMPTY; 9], player: 1 };
        proof {
            assert(r.cells() =~= empty_board());
            lemma_empty_board_has_no_winner(1);
            lemma_empty_board_has_no_winner(2);
            assert(r.cells()[0] == EMPTY);
        }
        r
    }

    /// A copy of the board.
    pub fn board(&self) -> (r: [u8; 9])
        ensures
            r@ == self.cells(),
    {
        self.board
    }

    /// The player whose turn it is, or who made the last move once the
    /// game is over.
    pub fn player(&self) -> (r: u8)
        ensures
            r == self.current(),
    {
        self.player
    }

    /// Where the game stands.
    pub fn status(&self) -> (r: GameStatus)
        ensures
            r == self.spec_status(),
    {
        if player_has_won(self.player, &self.board) {
            GameStatus::Won(self.player)
        } else if game_is_draw(&self.board) {
            GameStatus::Draw
        } else {
            GameStatus::InProgress
        }
    }

    /// Plays one turn of the current player from one line of input.
    ///
    /// A refused selection changes nothing and the same player keeps the
    /// turn. An accepted one gives the tile to the current player; unless
    /// that ends the game, the turn passes to the other player.
    pub fn play(&mut self, input: &str) -> (r: Result<GameStatus, MoveError>)
        requires
            old(self).wf(),
            old(self).spec_status() == GameStatus::InProgress,
        ensures
            final(self).wf(),
            ({
                let mover = old(self).current();
                match selection_outcome(trimmed(input@), old(self).cells()) {
                    Err(e) => {
                        &&& r == Err::<GameStatus, MoveError>(e)
                        &&& final(self).cells() == old(self).cells()
                        &&& final(self).current() == mover
                    },
                    Ok(i) => {
                        let b = old(self).cells().update(i as int, mover);
                        let s = status_after(b, mover);
                        &&& final(self).cells() == b
                        &&& r == Ok::<GameStatus, MoveError>(s)
                        &&& final(self).current() == if s == GameStatus::InProgress {
                            other_player(mover)
                        } else {
                            mover
                        }
                    },
                }
            }),
    {
        let mover = self.player;
        let ghost before = self.board@;
        match take_turn(mover, &mut self.board, input) {
            Err(e) => Err(e),
            Ok(i) => {
                proof {
                    lemma_toggle_twice(mover);
                    lemma_move_keeps_other_lines(before, i as int, mover, other_player(mover));
                    assert(valid_board(self.board@)) by {
                        assert forall|j: int| 0 <= j < 9 implies #[trigger] self.board@[j] <= 2 by {
                            if j != i as int {
                                assert(self.board@[j] == before[j]);
                            }
                        }
                    }
                }
                let s = self.status();
                if s == GameStatus::InProgress {
                    self.player = toggle_player(mover);
                }
                Ok(s)
            },
        }
    }
}

} // verus!
