//! Two-player tic-tac-toe: board model, move validation, terminal-condition
//! detection and the turn-by-turn game state machine.
pub mod board;
pub mod game;
pub mod render;
pub mod selection;

pub use board::{game_is_draw, player_has_won, toggle_player, EMPTY};
pub use game::{GameState, GameStatus};
pub use render::{get_board_character, render_board, render_grid};
pub use selection::{check_selection, take_turn, MoveError};
