//! Ranking the four candidate moves and picking one.

use vstd::prelude::*;

use crate::food::{food_scores, priority, score_food, scored_items, ScoredFood};
use crate::geometry::{Coord, Move, Point};
use crate::safety::{is_safe, is_safe_move};
use crate::state::{points, Battlesnake, Board, BoardModel, SnakeModel};

verus! {

/// The score of a move that is not safe. Every safe move scores at least
/// zero, so an unsafe one is never preferred to it.
pub const UNSAFE_SCORE: i128 = -1000;

/// The direction in which the snake last travelled: the one step that leads
/// from the neck to the head. It is `NONE` when there is no neck, or when the
/// head is not one step away from it.
pub open spec fn heading_of(body: Seq<Point>) -> Move {
    if body.len() < 2 {
        Move::NONE
    } else if body[0] == body[1].stepped(Move::LEFT) {
        Move::LEFT
    } else if body[0] == body[1].stepped(Move::RIGHT) {
        Move::RIGHT
    } else if body[0] == body[1].stepped(Move::UP) {
        Move::UP
    } else if body[0] == body[1].stepped(Move::DOWN) {
        Move::DOWN
    } else {
        Move::NONE
    }
}

/// `at` lies strictly on the side of `head` that `direction` points to,
/// along that direction's axis.
pub open spec fn on_side(direction: Move, at: Point, head: Point) -> bool {
    match direction {
        Move::LEFT => at.x < head.x,
        Move::RIGHT => at.x > head.x,
        Move::UP => at.y > head.y,
        Move::DOWN => at.y < head.y,
        Move::NONE => false,
    }
}

/// What one scored item adds to the total of `direction`.
pub open spec fn contribution(direction: Move, item: ScoredFood, head: Point) -> int {
    if on_side(direction, item.at, head) {
        item.priority
    } else {
        0
    }
}

/// The sum of the priorities of the items that lie on the side of
/// `direction`.
pub open spec fn side_total(direction: Move, scored: Seq<ScoredFood>, head: Point) -> int
    decreases scored.len(),
{
    if scored.len() == 0 {
        0
    } else {
        side_total(direction, scored.drop_last(), head) + contribution(
            direction,
            scored.last(),
            head,
        )
    }
}

/// The aggregate score of a candidate move: the food total of its side where
/// the move is safe, and `UNSAFE_SCORE` where it is not.
pub open spec fn aggregate(direction: Move, you: SnakeModel, board: BoardModel) -> int {
    if is_safe(direction, you, board) {
        side_total(
            direction,
            food_scores(board.food, you.body[0], heading_of(you.body)),
            you.body[0],
        )
    } else {
        UNSAFE_SCORE as int
    }
}

/// The place of a direction in the order in which candidates are looked at:
/// left, right, up, down.
pub open spec fn evaluation_rank(direction: Move) -> int {
    match direction {
        Move::LEFT => 0,
        Move::RIGHT => 1,
        Move::UP => 2,
        Move::DOWN => 3,
        Move::NONE => 4,
    }
}

/// The score that belongs to `direction` among the four given.
pub open spec fn score_of(direction: Move, left: int, right: int, up: int, down: int) -> int {
    match direction {
        Move::LEFT => left,
        Move::RIGHT => right,
        Move::UP => up,
        Move::DOWN => down,
        Move::NONE => UNSAFE_SCORE as int,
    }
}

/// The candidate with the highest score; among equals, the one that is
/// looked at first.
pub open spec fn best_of(left: int, right: int, up: int, down: int) -> Move {
    if left >= right && left >= up && left >= down {
        Move::LEFT
    } else if right >= up && right >= down {
        Move::RIGHT
    } else if up >= down {
        Move::UP
    } else {
        Move::DOWN
    }
}

/// The move that the selector makes for a snapshot.
pub open spec fn chosen(you: SnakeModel, board: BoardModel) -> Move {
    best_of(
        aggregate(Move::LEFT, you, board),
        aggregate(Move::RIGHT, you, board),
        aggregate(Move::UP, you, board),
        aggregate(Move::DOWN, you, board),
    )
}

/// Reads the snake's heading off its first two segments.
pub fn current_heading(body: &Vec<Coord>) -> (heading: Move)
    ensures
        heading == heading_of(points(body@)),
{
    if body.len() < 2 {
        return Move::NONE;
    }
    let head = body[0];
    let neck = body[1];
    assert(points(body@)[0] == head@ && points(body@)[1] == neck@);
    let dx: i64 = head.x as i64 - neck.x as i64;
    let dy: i64 = head.y as i64 - neck.y as i64;
    if dx == -1 && dy == 0 {
        Move::LEFT
    } else if dx == 1 && dy == 0 {
        Move::RIGHT
    } else if dx == 0 && dy == 1 {
        Move::UP
    } else if dx == 0 && dy == -1 {
        Move::DOWN
    } else {
        Move::NONE
    }
}

/// Tells whether `cell` lies on the side of `head` that `direction` points
/// to.
pub fn lies_on_side(direction: Move, cell: Coord, head: Coord) -> (on: bool)
    ensures
        on == on_side(direction, cell@, head@),
{
    match direction {
        Move::LEFT => cell.x < head.x,
        Move::RIGHT => cell.x > head.x,
        Move::UP => cell.y > head.y,
        Move::DOWN => cell.y < head.y,
        Move::NONE => false,
    }
}

/// Adds up the priorities of the scored items on the side of `direction`.
pub fn side_score(direction: Move, scored: &Vec<(i32, i32, i32)>, head: Coord) -> (total: i128)
    ensures
        total == side_total(direction, scored_items(scored@), head@),
{
    let ghost items = scored_items(scored@);
    let mut total: i128 = 0;
    let mut i: usize = 0;
    while i < scored.len()
        invariant
            i <= scored@.len(),
            items == scored_items(scored@),
            total == side_total(direction, items.take(i as int), head@),
            -0x8000_0000 * i <= total <= 0x8000_0000 * i,
        decreases scored@.len() - i,
    {
        let item = scored[i];
        proof {
            let next = items.take(i + 1);
            assert(next.drop_last() =~= items.take(i as int));
            assert(next.last() == items[i as int]);
        }
        if lies_on_side(direction, Coord { x: item.0, y: item.1 }, head) {
            total = total + item.2 as i128;
        }
        i += 1;
    }
    assert(items.take(i as int) =~= items);
    total
}

/// The aggregate score of one candidate move.
pub fn direction_score(direction: Move, you: &Battlesnake, board: &Board) -> (score: i128)
    requires
        you.body@.len() >= 1,
    ensures
        score == aggregate(direction, you@, board@),
{
    if !is_safe_move(direction, you, board) {
        return UNSAFE_SCORE;
    }
    let head = you.body[0];
    assert(points(you.body@)[0] == head@);
    let heading = current_heading(&you.body);
    let scored = score_food(&board.food, head, heading);
    side_score(direction, &scored, head)
}

/// Picks the best of four scores, one per candidate in the order left,
/// right, up, down. A later candidate wins only with a strictly higher score.
pub fn pick_best(left: i128, right: i128, up: i128, down: i128) -> (choice: Move)
    ensures
        choice == best_of(left as int, right as int, up as int, down as int),
{
    let mut choice = Move::LEFT;
    let mut best = left;
    if right > best {
        choice = Move::RIGHT;
        best = right;
    }
    if up > best {
        choice = Move::UP;
        best = up;
    }
    if down > best {
        choice = Move::DOWN;
    }
    choice
}

/// Chooses the move for this turn.
///
/// The answer is always one of the four directions. It is a safe one
/// whenever a safe one exists; when none does, it is still a direction, the
/// first in the order left, right, up, down.
pub fn choose_move(you: &Battlesnake, board: &Board) -> (choice: Move)
    requires
        you.body@.len() >= 1,
    ensures
        choice == chosen(you@, board@),
        choice.is_cardinal(),
        (exists|d: Move| d.is_cardinal() && is_safe(d, you@, board@)) ==> is_safe(
            choice,
            you@,
            board@,
        ),
        forall|d: Move|
            d.is_cardinal() ==> aggregate(d, you@, board@) <= aggregate(choice, you@, board@),
        forall|d: Move|
            d.is_cardinal() && aggregate(d, you@, board@) == aggregate(choice, you@, board@)
                ==> evaluation_rank(choice) <= evaluation_rank(d),
{
    let left = direction_score(Move::LEFT, you, board);
    let right = direction_score(Move::RIGHT, you, board);
    let up = direction_score(Move::UP, you, board);
    let down = direction_score(Move::DOWN, you, board);
    proof {
        lemma_choice_is_first_maximum(you@, board@);
        lemma_choice_is_safe_if_any(you@, board@);
    }
    pick_best(left, right, up, down)
}

/// The best of four scores is one of the four candidates, no candidate
/// scores higher, and no candidate before it in the order scores as high.
pub proof fn lemma_best_is_first_maximum(left: int, right: int, up: int, down: int)
    ensures
        best_of(left, right, up, down).is_cardinal(),
        forall|d: Move|
            d.is_cardinal() ==> score_of(d, left, right, up, down) <= score_of(
                best_of(left, right, up, down),
                left,
                right,
                up,
                down,
            ),
        forall|d: Move|
            d.is_cardinal() && evaluation_rank(d) < evaluation_rank(
                best_of(left, right, up, down),
            ) ==> score_of(d, left, right, up, down) < score_of(
                best_of(left, right, up, down),
                left,
                right,
                up,
                down,
            ),
{
}

/// Ties go to the candidate that is looked at first: of two directions that
/// both reach the highest aggregate score, the later one is never chosen.
/// More generally no direction scores higher than the chosen one, and every
/// direction that scores as high comes no earlier in the order.
pub proof fn lemma_choice_is_first_maximum(you: SnakeModel, board: BoardModel)
    ensures
        chosen(you, board).is_cardinal(),
        forall|d: Move|
            d.is_cardinal() ==> aggregate(d, you, board) <= aggregate(
                chosen(you, board),
                you,
                board,
            ),
        forall|d: Move|
            d.is_cardinal() && aggregate(d, you, board) == aggregate(
                chosen(you, board),
                you,
                board,
            ) ==> evaluation_rank(chosen(you, board)) <= evaluation_rank(d),
{
}

/// A total over scored food is never negative, and it is zero where no item
/// lies on the side.
pub proof fn lemma_side_total_bounds(
    direction: Move,
    food: Seq<Point>,
    head: Point,
    heading: Move,
)
    ensures
        side_total(direction, food_scores(food, head, heading), head) >= 0,
        (forall|i: int| 0 <= i < food.len() ==> !on_side(direction, #[trigger] food[i], head))
            ==> side_total(direction, food_scores(food, head, heading), head) == 0,
    decreases food.len(),
{
    let scored = food_scores(food, head, heading);
    if food.len() > 0 {
        lemma_side_total_bounds(direction, food.drop_last(), head, heading);
        assert(scored.drop_last() =~= food_scores(food.drop_last(), head, heading));
        assert(scored.last().priority == priority(food.last(), head, heading));
        assert(scored.last().at == food.last());
    }
}

/// A move is safe exactly when its aggregate score is not negative.
pub proof fn lemma_safe_iff_not_negative(direction: Move, you: SnakeModel, board: BoardModel)
    ensures
        is_safe(direction, you, board) <==> aggregate(direction, you, board) >= 0,
        !is_safe(direction, you, board) <==> aggregate(direction, you, board) == UNSAFE_SCORE,
{
    lemma_side_total_bounds(direction, board.food, you.body[0], heading_of(you.body));
}

/// The selector never walks into a collision that it could avoid: where at
/// least one of the four moves is safe, the chosen move is safe.
pub proof fn lemma_choice_is_safe_if_any(you: SnakeModel, board: BoardModel)
    ensures
        (exists|d: Move| d.is_cardinal() && is_safe(d, you, board)) ==> is_safe(
            chosen(you, board),
            you,
            board,
        ),
{
    lemma_safe_iff_not_negative(Move::LEFT, you, board);
    lemma_safe_iff_not_negative(Move::RIGHT, you, board);
    lemma_safe_iff_not_negative(Move::UP, you, board);
    lemma_safe_iff_not_negative(Move::DOWN, you, board);
}

/// A trapped snake still gets an answer: where no move is safe, all four
/// score alike and the first in the order, left, is chosen.
pub proof fn lemma_trapped_goes_left(you: SnakeModel, board: BoardModel)
    requires
        forall|d: Move| d.is_cardinal() ==> !is_safe(d, you, board),
    ensures
        chosen(you, board) == Move::LEFT,
{
    assert(Move::LEFT.is_cardinal() && Move::RIGHT.is_cardinal());
    assert(Move::UP.is_cardinal() && Move::DOWN.is_cardinal());
}

/// The heading is the one direction whose step leads from neck to head.
pub proof fn lemma_heading_is_step_from_neck(body: Seq<Point>, direction: Move)
    requires
        direction.is_cardinal(),
    ensures
        heading_of(body) == direction <==> (body.len() >= 2 && body[0] == body[1].stepped(
            direction,
        )),
{
}

} // verus!
