//! Grid coordinates and the four unit steps.

use vstd::prelude::*;
use vstd::std_specs::ops::AddSpecImpl;

verus! {

/// A position on the unbounded integer grid: the model of a [`Coord`].
pub struct Point {
    pub x: int,
    pub y: int,
}

/// A grid cell as the game gives it. `x` grows to the right, `y` grows
/// upwards.
#[derive(Clone, Copy, Debug, PartialEq, Eq, Structural)]
pub struct Coord {
    pub x: i32,
    pub y: i32,
}

impl View for Coord {
    type V = Point;

    open spec fn view(&self) -> Point {
        Point { x: self.x as int, y: self.y as int }
    }
}

impl Point {
    /// The point reached from `self` by one step in `direction`.
    pub open spec fn stepped(self, direction: Move) -> Point {
        Point { x: self.x + direction.dx(), y: self.y + direction.dy() }
    }
}

impl core::ops::Add for Coord {
    type Output = Coord;

    /// Component-wise sum.
    fn add(self, other: Coord) -> (sum: Coord) {
        Coord { x: self.x + other.x, y: self.y + other.y }
    }
}

impl AddSpecImpl for Coord {
    open spec fn obeys_add_spec() -> bool {
        true
    }

    /// Both component sums have to fit the coordinate type.
    open spec fn add_req(self, other: Coord) -> bool {
        &&& i32::MIN <= self.x + other.x <= i32::MAX
        &&& i32::MIN <= self.y + other.y <= i32::MAX
    }

    open spec fn add_spec(self, other: Coord) -> Coord {
        Coord { x: (self.x + other.x) as i32, y: (self.y + other.y) as i32 }
    }
}

/// A direction of travel. `NONE` stands for "no heading known": it is what a
/// snake without a neck has, and it is never the answer to a turn.
#[derive(Clone, Copy, Debug, PartialEq, Eq, Structural)]
pub enum Move {
    UP,
    DOWN,
    LEFT,
    RIGHT,
    NONE,
}

impl Move {
    /// Horizontal component of the unit step.
    pub open spec fn dx(self) -> int {
        match self {
            Move::LEFT => -1,
            Move::RIGHT => 1,
            _ => 0,
        }
    }

    /// Vertical component of the unit step.
    pub open spec fn dy(self) -> int {
        match self {
            Move::UP => 1,
            Move::DOWN => -1,
            _ => 0,
        }
    }

    /// True of the four directions a snake can actually take.
    pub open spec fn is_cardinal(self) -> bool {
        self != Move::NONE
    }

    /// The lower-case word by which the game knows this direction.
    pub open spec fn label(self) -> Seq<char> {
        match self {
            Move::UP => "up"@,
            Move::DOWN => "down"@,
            Move::LEFT => "left"@,
            Move::RIGHT => "right"@,
            Move::NONE => "none"@,
        }
    }

    /// The direction's label as an owned string.
    pub fn value(&self) -> (word: String)
        ensures
            word@ == self.label(),
    {
        match *self {
            Move::UP => "up".to_owned(),
            Move::DOWN => "down".to_owned(),
            Move::LEFT => "left".to_owned(),
            Move::RIGHT => "right".to_owned(),
            Move::NONE => "none".to_owned(),
        }
    }
}

/// The unit step of `direction` as a coordinate offset; `NONE` does not move.
pub fn next_move(direction: Move) -> (step: Coord)
    ensures
        step@ == (Point { x: direction.dx(), y: direction.dy() }),
{
    match direction {
        Move::UP => Coord { x: 0, y: 1 },
        Move::DOWN => Coord { x: 0, y: -1 },
        Move::LEFT => Coord { x: -1, y: 0 },
        Move::RIGHT => Coord { x: 1, y: 0 },
        Move::NONE => Coord { x: 0, y: 0 },
    }
}

/// The five labels are pairwise different, so a label names one direction.
pub proof fn lemma_label_injective(a: Move, b: Move)
    requires
        a.label() == b.label(),
    ensures
        a == b,
{
    reveal_strlit("up");
    reveal_strlit("down");
    reveal_strlit("left");
    reveal_strlit("right");
    reveal_strlit("none");
    if a != b {
        let la = a.label();
        let lb = b.label();
        assert(la.len() == lb.len());
        assert(la[0] == lb[0]);
    }
}

} // verus!
