//! The text shown to the players: the board grid, the turn prompt and the
//! reasons a selection is refused.
use vstd::prelude::*;

use crate::selection::MoveError;

verus! {

/// The character of decimal digit `d`.
pub open spec fn digit_char(d: nat) -> char {
    seq!['0', '1', '2', '3', '4', '5', '6', '7', '8', '9'][d as int]
}

/// `n` written in decimal, without sign or leading zeros.
pub open spec fn decimal(n: nat) -> Seq<char>
    decreases n,
{
    if n < 10 {
        seq![digit_char(n)]
    } else {
        decimal(n / 10) + seq![digit_char(n % 10)]
    }
}

/// Relies on `u8`'s `Display` (through `ToString::to_string`): the value in
/// decimal, without sign or leading zeros.
#[verifier::external_body]
fn decimal_text(n: u8) -> (r: String)
    ensures
        r@ == decimal(n as nat),
{
    n.to_string()
}

/// How a cell is drawn: `X` for player 1, `O` for player 2, and the tile's
/// 1-based number `position` when nobody has taken it.
pub open spec fn cell_text(v: u8, position: nat) -> Seq<char> {
    if v == 1 {
        "X"@
    } else if v == 2 {
        "O"@
    } else {
        decimal(position)
    }
}

/// Row `row` of the grid, cells separated by `|`, followed by a divider line.
pub open spec fn row_text(b: Seq<u8>, row: int) -> Seq<char> {
    " "@ + cell_text(b[3 * row], (3 * row + 1) as nat) + " | "@ + cell_text(
        b[3 * row + 1],
        (3 * row + 2) as nat,
    ) + " | "@ + cell_text(b[3 * row + 2], (3 * row + 3) as nat) + " \n"@ + "---|---|---\n"@
}

/// The three rows of the grid.
pub open spec fn grid_text(b: Seq<u8>) -> Seq<char> {
    row_text(b, 0) + row_text(b, 1) + row_text(b, 2)
}

/// The whole screen of a turn: whose turn it is, the grid, and the prompt.
pub open spec fn screen_text(player: u8, b: Seq<u8>) -> Seq<char> {
    "Player "@ + decimal(player as nat)
        + ", please select a tile on the board. Only values 1 through 9 are valid.\n\n"@
        + grid_text(b) + "Enter your selection: "@
}

/// The sentence that tells a player why a selection was refused.
pub open spec fn error_text(e: MoveError) -> Seq<char> {
    match e {
        MoveError::NotANumber => "Your selection is not a valid number from the board."@,
        MoveError::OutOfRange(n) => decimal(n as nat) + " is not a valid tile on the board."@,
        MoveError::AlreadyPlayed(n) => "Tile "@ + decimal(n as nat)
            + " has already been played. Choose another tile."@,
    }
}

/// How the cell holding `pos` is drawn; `refer` is its 1-based tile number.
pub fn get_board_character(pos: u8, refer: u8) -> (r: String)
    ensures
        r@ == cell_text(pos, refer as nat),
{
    if pos == 1 {
        String::from_str("X")
    } else if pos == 2 {
        String::from_str("O")
    } else {
        decimal_text(refer)
    }
}

fn render_row(the_board: &[u8; 9], row: usize) -> (r: String)
    requires
        row < 3,
    ensures
        r@ == row_text(the_board@, row as int),
{
    let first = 3 * row;
    let mut s = String::from_str(" ");
    s.append(get_board_character(the_board[first], (first + 1) as u8).as_str());
    s.append(" | ");
    s.append(get_board_character(the_board[first + 1], (first + 2) as u8).as_str());
    s.append(" | ");
    s.append(get_board_character(the_board[first + 2], (first + 3) as u8).as_str());
    s.append(" \n");
    s.append("---|---|---\n");
    s
}

/// The grid of `the_board`, one line per row with a divider under each.
pub fn render_grid(the_board: &[u8; 9]) -> (r: String)
    ensures
        r@ == grid_text(the_board@),
{
    let mut s = render_row(the_board, 0);
    s.append(render_row(the_board, 1).as_str());
    s.append(render_row(the_board, 2).as_str());
    s
}

/// The screen shown to `player` before a selection: a heading naming the
/// player, the grid, and the input prompt.
pub fn render_board(player: u8, the_board: &[u8; 9]) -> (r: String)
    ensures
        r@ == screen_text(player, the_board@),
{
    let mut s = String::from_str("Player ");
    s.append(decimal_text(player).as_str());
    s.append(", please select a tile on the board. Only values 1 through 9 are valid.\n\n");
    s.append(render_grid(the_board).as_str());
    s.append("Enter your selection: ");
    s
}

impl MoveError {
    /// The sentence that tells the player why the selection was refused.
    pub fn message(&self) -> (r: String)
        ensures
            r@ == error_text(*self),
    {
        match self {
            MoveError::NotANumber => String::from_str(
                "Your selection is not a valid number from the board.",
            ),
            MoveError::OutOfRange(n) => {
                let mut s = decimal_text(*n);
                s.append(" is not a valid tile on the board.");
                s
            },
            MoveError::AlreadyPlayed(n) => {
                let mut s = String::from_str("Tile ");
                s.append(decimal_text(*n).as_str());
                s.append(" has already been played. Choose another tile.");
                s
            },
        }
    }
}

} // verus!
