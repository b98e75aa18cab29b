//! Move selection for a turn-based snake game on a rectangular grid.
//!
//! Each turn the engine receives a snapshot of the board and picks one of the
//! four directions for its own snake, avoiding walls, bodies and cells that an
//! equal-or-larger opponent could reach first.

pub mod geometry;
pub mod logic;
pub mod model;

pub use geometry::{Coord, Direction};
pub use logic::{
    end, find_heuristic_move, find_perfect_move, find_perfect_move_with, get_move, get_move_with,
    pick_move, safe_moves, settle_move, spot_has_snake, spot_might_have_snake, start, valid_move,
};
pub use model::{Battlesnake, Board, Game};
