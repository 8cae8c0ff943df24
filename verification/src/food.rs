//! Food scoring: how much one piece of food is worth, given where the head
//! is and which way the snake is travelling.

use vstd::prelude::*;

use crate::geometry::{Coord, Move, Point};
use crate::state::points;

verus! {

/// Food that lies on the head's row or column, in the direction the snake is
/// already travelling.
pub const PRIORITY_AHEAD: i32 = 3;

/// Food that lies on the head's row or column, but not straight ahead.
pub const PRIORITY_ALIGNED: i32 = 2;

/// Food that shares neither row nor column with the head.
pub const PRIORITY_OFF_AXIS: i32 = 1;

/// One piece of food with the priority it was given.
pub struct ScoredFood {
    pub at: Point,
    pub priority: int,
}

/// The scored items that a sequence of `(x, y, priority)` triples stands for.
pub open spec fn scored_items(triples: Seq<(i32, i32, i32)>) -> Seq<ScoredFood> {
    triples.map_values(
        |t: (i32, i32, i32)|
            ScoredFood { at: Point { x: t.0 as int, y: t.1 as int }, priority: t.2 as int },
    )
}

/// `food` shares the head's row or column and lies strictly on the side that
/// `heading` points to.
pub open spec fn straight_ahead(food: Point, head: Point, heading: Move) -> bool {
    match heading {
        Move::RIGHT => food.y == head.y && food.x > head.x,
        Move::LEFT => food.y == head.y && food.x < head.x,
        Move::UP => food.x == head.x && food.y > head.y,
        Move::DOWN => food.x == head.x && food.y < head.y,
        Move::NONE => false,
    }
}

/// `food` shares the head's row or its column.
pub open spec fn on_axis(food: Point, head: Point) -> bool {
    food.x == head.x || food.y == head.y
}

/// The priority of one piece of food: highest straight ahead, lower on an
/// axis of the head but not ahead, lowest off both axes.
pub open spec fn priority(food: Point, head: Point, heading: Move) -> int {
    if straight_ahead(food, head, heading) {
        PRIORITY_AHEAD as int
    } else if on_axis(food, head) {
        PRIORITY_ALIGNED as int
    } else {
        PRIORITY_OFF_AXIS as int
    }
}

/// Every piece of food with its priority, in the order of `food`.
pub open spec fn food_scores(food: Seq<Point>, head: Point, heading: Move) -> Seq<ScoredFood> {
    food.map_values(|f: Point| ScoredFood { at: f, priority: priority(f, head, heading) })
}

/// Scores one piece of food.
pub fn food_priority(food: Coord, head: Coord, heading: Move) -> (p: i32)
    ensures
        p == priority(food@, head@, heading),
        PRIORITY_OFF_AXIS <= p <= PRIORITY_AHEAD,
{
    if food.y == head.y {
        if (food.x > head.x && heading == Move::RIGHT) || (food.x < head.x && heading == Move::LEFT) {
            PRIORITY_AHEAD
        } else {
            PRIORITY_ALIGNED
        }
    } else if food.x == head.x {
        if (food.y > head.y && heading == Move::UP) || (food.y < head.y && heading == Move::DOWN) {
            PRIORITY_AHEAD
        } else {
            PRIORITY_ALIGNED
        }
    } else {
        PRIORITY_OFF_AXIS
    }
}

/// Scores every piece of food: the result lists, in the order of `food`, each
/// item's coordinates with its priority.
pub fn score_food(food: &Vec<Coord>, head: Coord, heading: Move) -> (scored: Vec<(i32, i32, i32)>)
    ensures
        scored_items(scored@) == food_scores(points(food@), head@, heading),
{
    let mut scored: Vec<(i32, i32, i32)> = Vec::new();
    let mut i: usize = 0;
    while i < food.len()
        invariant
            i <= food@.len(),
            scored@.len() == i,
            forall|j: int|
                #![trigger scored@[j]]
                0 <= j < i ==> {
                    &&& scored@[j].0 == food@[j].x
                    &&& scored@[j].1 == food@[j].y
                    &&& scored@[j].2 == priority(food@[j]@, head@, heading)
                },
        decreases food@.len() - i,
    {
        let item = food[i];
        scored.push((item.x, item.y, food_priority(item, head, heading)));
        i += 1;
    }
    assert(scored_items(scored@) =~= food_scores(points(food@), head@, heading));
    scored
}

/// Food straight ahead is worth strictly more than the same food would be
/// under any other heading: it scores `PRIORITY_AHEAD` under the heading that
/// points at it and `PRIORITY_ALIGNED` under every other one.
pub proof fn lemma_ahead_outscores_other_headings(
    food: Point,
    head: Point,
    heading: Move,
    other: Move,
)
    requires
        straight_ahead(food, head, heading),
        other != heading,
    ensures
        priority(food, head, heading) == PRIORITY_AHEAD,
        priority(food, head, other) == PRIORITY_ALIGNED,
        priority(food, head, heading) > priority(food, head, other),
{
}

/// Every priority is one of the three levels, and the level says how the
/// food lies: ahead, aligned without being ahead, or off both axes.
pub proof fn lemma_priority_levels(food: Point, head: Point, heading: Move)
    ensures
        priority(food, head, heading) == PRIORITY_AHEAD <==> straight_ahead(food, head, heading),
        priority(food, head, heading) == PRIORITY_OFF_AXIS <==> !on_axis(food, head),
        PRIORITY_OFF_AXIS <= priority(food, head, heading) <= PRIORITY_AHEAD,
{
}

} // verus!
