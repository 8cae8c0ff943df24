//! The legality check: which moves the snake survives this turn.

use vstd::prelude::*;

use crate::geometry::{next_move, Coord, Move, Point};
use crate::state::{points, Battlesnake, Board, BoardModel, SnakeModel};

verus! {

/// `p` lies within the board's bounds.
pub open spec fn on_board(p: Point, board: BoardModel) -> bool {
    0 <= p.x < board.width && 0 <= p.y < board.height
}

/// `p` is the head that `snake` names or one of its body segments.
pub open spec fn occupied_by(snake: SnakeModel, p: Point) -> bool {
    snake.head == p || snake.body.contains(p)
}

/// Some snake listed on the board occupies `p`.
pub open spec fn occupied_by_any(snakes: Seq<SnakeModel>, p: Point) -> bool {
    exists|i: int| 0 <= i < snakes.len() && occupied_by(#[trigger] snakes[i], p)
}

/// The cell that the head of `you` reaches by one step in `direction`.
pub open spec fn destination(you: SnakeModel, direction: Move) -> Point {
    you.body[0].stepped(direction)
}

/// A move is safe when the cell it leads to lies on the board, holds no
/// segment of the snake's own body, and is occupied by no snake on the board.
pub open spec fn is_safe(direction: Move, you: SnakeModel, board: BoardModel) -> bool {
    let target = destination(you, direction);
    &&& on_board(target, board)
    &&& !you.body.contains(target)
    &&& !occupied_by_any(board.snakes, target)
}

/// Tells whether `cell` is one of the segments in `body`.
pub fn body_contains(body: &Vec<Coord>, cell: Coord) -> (found: bool)
    ensures
        found == points(body@).contains(cell@),
{
    let mut i: usize = 0;
    while i < body.len()
        invariant
            i <= body@.len(),
            forall|j: int| 0 <= j < i ==> (#[trigger] points(body@)[j]) != cell@,
        decreases body@.len() - i,
    {
        if body[i] == cell {
            assert(points(body@)[i as int] == cell@);
            return true;
        }
        i += 1;
    }
    false
}

/// Tells whether `snake` occupies `cell`, with its head or with its body.
pub fn snake_occupies(snake: &Battlesnake, cell: Coord) -> (hit: bool)
    ensures
        hit == occupied_by(snake@, cell@),
{
    snake.head == cell || body_contains(&snake.body, cell)
}

/// Decides whether `you` survives a step in `test_direction`.
///
/// The answer is `false` whenever the step leaves the board, runs into the
/// snake's own body, or runs into the head or body of a snake on the board.
pub fn is_safe_move(test_direction: Move, you: &Battlesnake, board: &Board) -> (safe: bool)
    requires
        you.body@.len() >= 1,
    ensures
        safe == is_safe(test_direction, you@, board@),
        !on_board(destination(you@, test_direction), board@) ==> !safe,
        you@.body.contains(destination(you@, test_direction)) ==> !safe,
        forall|i: int|
            0 <= i < board@.snakes.len() && occupied_by(
                #[trigger] board@.snakes[i],
                destination(you@, test_direction),
            ) ==> !safe,
{
    let head = you.body[0];
    let step = next_move(test_direction);
    let x: i64 = head.x as i64 + step.x as i64;
    let y: i64 = head.y as i64 + step.y as i64;
    assert(points(you.body@)[0] == head@);
    if x < 0 || y < 0 || x >= board.width as i64 || y >= board.height as i64 {
        return false;
    }
    let next_pos = head + step;
    assert(next_pos@ == destination(you@, test_direction));
    if body_contains(&you.body, next_pos) {
        return false;
    }
    let mut i: usize = 0;
    while i < board.snakes.len()
        invariant
            i <= board.snakes@.len(),
            next_pos@ == destination(you@, test_direction),
            forall|j: int| 0 <= j < i ==> !occupied_by(#[trigger] board@.snakes[j], next_pos@),
        decreases board.snakes@.len() - i,
    {
        assert(board@.snakes[i as int] == board.snakes@[i as int]@);
        if snake_occupies(&board.snakes[i], next_pos) {
            assert(occupied_by(board@.snakes[i as int], next_pos@));
            return false;
        }
        i += 1;
    }
    true
}

} // verus!
