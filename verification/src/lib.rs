//! Move selection for a snake on a rectangular grid.
//!
//! Each turn the selector looks at one snapshot of the board, rules out the
//! moves that would end the game at once, ranks the others by how much food
//! lies on their side of the head, and answers with one direction.

pub mod food;
pub mod geometry;
pub mod json;
pub mod logic;
pub mod safety;
pub mod selector;
pub mod state;

pub use crate::food::{food_priority, score_food};
pub use crate::geometry::{next_move, Coord, Move, Point};
pub use crate::logic::{end, get_move, info, start};
pub use crate::safety::is_safe_move;
pub use crate::selector::{choose_move, current_heading, direction_score, pick_best, side_score};
pub use crate::state::{Battlesnake, Board, BoardModel, Game, SnakeModel};
