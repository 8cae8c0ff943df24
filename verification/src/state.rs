//! The snapshot of a game that one decision is made from.

use vstd::prelude::*;

use crate::geometry::{Coord, Point};

verus! {

/// What the selector reads of a snake: its segments, head first, and the
/// head as the game names it on its own.
pub struct SnakeModel {
    pub body: Seq<Point>,
    pub head: Point,
}

/// What the selector reads of a board: its extent, the food on it and the
/// snakes listed on it.
pub struct BoardModel {
    pub width: int,
    pub height: int,
    pub food: Seq<Point>,
    pub snakes: Seq<SnakeModel>,
}

/// The points that a sequence of coordinates stands for, in the same order.
pub open spec fn points(cells: Seq<Coord>) -> Seq<Point> {
    cells.map_values(|c: Coord| c@)
}

/// Game metadata. The selector carries it along and never reads it.
#[derive(Debug)]
pub struct Game {
    pub id: String,
    pub timeout: u32,
}

/// A snake on the board. `body[0]` is the head and `body[1]`, where there is
/// one, the neck.
#[derive(Debug)]
pub struct Battlesnake {
    pub id: String,
    pub name: String,
    pub health: u32,
    pub body: Vec<Coord>,
    pub head: Coord,
    pub length: u32,
}

impl View for Battlesnake {
    type V = SnakeModel;

    open spec fn view(&self) -> SnakeModel {
        SnakeModel { body: points(self.body@), head: self.head@ }
    }
}

/// The board of one turn. A cell `(x, y)` lies on it when `0 <= x < width`
/// and `0 <= y < height`.
#[derive(Debug)]
pub struct Board {
    pub height: i32,
    pub width: i32,
    pub food: Vec<Coord>,
    pub snakes: Vec<Battlesnake>,
}

impl View for Board {
    type V = BoardModel;

    open spec fn view(&self) -> BoardModel {
        BoardModel {
            width: self.width as int,
            height: self.height as int,
            food: points(self.food@),
            snakes: self.snakes@.map_values(|s: Battlesnake| s@),
        }
    }
}

} // verus!
