//! Reading a player's tile selection and applying it to the board.
use vstd::prelude::*;

use crate::board::EMPTY;

verus! {

/// Why a selection was refused. The turn stays with the same player and
/// the board is left as it was.
#[derive(Clone, Copy, Debug, PartialEq, Eq, Structural)]
pub enum MoveError {
    /// The text is not an unsigned integer that fits in a byte.
    NotANumber,
    /// The number names no tile: it is outside `1..=9`.
    OutOfRange(u8),
    /// The tile with this number has already been taken.
    AlreadyPlayed(u8),
}

/// What `str::trim` leaves of `s`: the text without its leading and
/// trailing whitespace.
pub uninterp spec fn trimmed(s: Seq<char>) -> Seq<char>;

/// `c` is one of the ASCII digits `0` to `9`.
pub open spec fn is_digit(c: char) -> bool {
    '0' <= c && c <= '9'
}

/// The value of a nonempty run of decimal digits, most significant first.
pub open spec fn digits_value(s: Seq<char>) -> nat
    decreases s.len(),
{
    if s.len() == 0 {
        0
    } else {
        10 * digits_value(s.drop_last()) + ((s.last() as u32) - ('0' as u32)) as nat
    }
}

/// The digits of an unsigned number: the text with one leading `+` removed.
pub open spec fn unsigned_digits(s: Seq<char>) -> Seq<char> {
    if s.len() > 0 && s[0] == '+' {
        s.drop_first()
    } else {
        s
    }
}

/// What `u8`'s `from_str` gives for `s`: an optional `+` followed by one or
/// more decimal digits whose value is at most 255, and nothing else.
pub open spec fn parsed_byte(s: Seq<char>) -> Option<u8> {
    let d = unsigned_digits(s);
    if d.len() > 0 && (forall|i: int| 0 <= i < d.len() ==> #[trigger] is_digit(d[i]))
        && digits_value(d) <= 255 {
        Some(digits_value(d) as u8)
    } else {
        None
    }
}

/// What happens to the trimmed selection `s` on board `b`: the board index
/// it names, or why it is refused. The checks come in order: a number,
/// a tile number, an empty tile.
pub open spec fn selection_outcome(s: Seq<char>, b: Seq<u8>) -> Result<usize, MoveError> {
    match parsed_byte(s) {
        None => Err(MoveError::NotANumber),
        Some(n) => if n < 1 || n > 9 {
            Err(MoveError::OutOfRange(n))
        } else if b[n - 1] != EMPTY {
            Err(MoveError::AlreadyPlayed(n))
        } else {
            Ok((n - 1) as usize)
        },
    }
}

/// Relies on `str::trim`: leading and trailing Unicode whitespace removed,
/// the result depending on the text alone.
#[verifier::external_body]
fn trim_text(s: &str) -> (r: &str)
    ensures
        r@ == trimmed(s@),
{
    s.trim()
}

/// Relies on `u8`'s `FromStr` (`str::parse::<u8>`): an optional `+`, then
/// decimal digits only, with a value that fits in a byte.
#[verifier::external_body]
fn parse_byte(s: &str) -> (r: Option<u8>)
    ensures
        r == parsed_byte(s@),
{
    s.parse::<u8>().ok()
}

/// Checks an already trimmed selection against the board: the board index
/// of the chosen tile, or why the selection is refused.
pub fn check_selection(selection: &str, the_board: &[u8; 9]) -> (r: Result<usize, MoveError>)
    ensures
        r == selection_outcome(selection@, the_board@),
        r matches Ok(i) ==> i < 9 && the_board@[i as int] == EMPTY,
{
    match parse_byte(selection) {
        None => Err(MoveError::NotANumber),
        Some(n) => {
            if n > 9 || n < 1 {
                Err(MoveError::OutOfRange(n))
            } else if the_board[(n - 1) as usize] != EMPTY {
                Err(MoveError::AlreadyPlayed(n))
            } else {
                Ok((n - 1) as usize)
            }
        },
    }
}

/// Plays `player`'s turn from one line of input: the text is trimmed and
/// checked; when it names an empty tile, that tile is given to `player`
/// and its board index returned. Otherwise the board is left unchanged.
pub fn take_turn(player: u8, the_board: &mut [u8; 9], input: &str) -> (r: Result<usize, MoveError>)
    ensures
        r == selection_outcome(trimmed(input@), old(the_board)@),
        r matches Ok(i) ==> final(the_board)@ == old(the_board)@.update(i as int, player),
        r is Err ==> final(the_board)@ == old(the_board)@,
{
    let selection = trim_text(input);
    let r = check_selection(selection, the_board);
    if let Ok(i) = r {
        the_board[i] = player;
    }
    r
}

/// Once a selection has been accepted and its tile given to a player, the
/// same selection is refused as already played, whoever makes it next.
pub proof fn lemma_taken_tile_refused(s: Seq<char>, b: Seq<u8>, p: u8)
    requires
        b.len() == 9,
        p != EMPTY,
        selection_outcome(s, b) is Ok,
    ensures
        selection_outcome(s, b.update(selection_outcome(s, b)->Ok_0 as int, p))
            == Err::<usize, MoveError>(MoveError::AlreadyPlayed(parsed_byte(s)->Some_0)),
{
}

} // verus!
