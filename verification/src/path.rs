//! The waypoint path that planes follow across the field.
//!
//! A path is an ordered sequence of turns; a plane within tolerance of a
//! turn adopts that turn's direction. The scan order matters: every turn
//! is tested each tick and the last matching turn wins.

use vstd::prelude::*;
use crate::geom::{Rect, FIELD_LIMIT, SCALE, SIZE_LIMIT};

verus! {

/// How close (in subunits, on both axes) a plane must be to a turn's
/// corner to count as touching it: ten world units.
pub const TURN_TOLERANCE: i64 = 10 * SCALE;

/// The four different directions a Turn can point.
#[derive(Clone, Copy, PartialEq, Eq, Structural, Debug)]
pub enum Direction {
    Up,
    Down,
    Left,
    Right,
}

/// A vertex along a PlanePath.
#[derive(Clone, Copy, PartialEq, Eq, Structural, Debug)]
pub struct Turn {
    pub x: i64,
    pub y: i64,
    pub direction: Direction,
}

impl Turn {
    /// Turn coordinates come from field geometry and stay in its band.
    pub open spec fn wf(self) -> bool {
        &&& -FIELD_LIMIT <= self.x <= FIELD_LIMIT
        &&& -FIELD_LIMIT <= self.y <= FIELD_LIMIT
    }

    /// Construct a new Turn.
    pub fn new(pos: (i64, i64), direction: Direction) -> (r: Turn)
        ensures
            r == (Turn { x: pos.0, y: pos.1, direction }),
    {
        Turn { x: pos.0, y: pos.1, direction }
    }

    /// Returns the Direction that the Turn points.
    pub fn direction(&self) -> (r: Direction)
        ensures
            r == self.direction,
    {
        self.direction
    }

    /// A rectangle touches the turn when its corner lies strictly within
    /// the tolerance of the turn's corner on both axes.
    pub open spec fn spec_touching(self, rect: Rect) -> bool {
        &&& self.x - TURN_TOLERANCE < rect.x < self.x + TURN_TOLERANCE
        &&& self.y - TURN_TOLERANCE < rect.y < self.y + TURN_TOLERANCE
    }

    /// Returns true if the referenced Rect passes into the turn.
    pub fn touching(&self, rect: &Rect) -> (r: bool)
        requires
            self.wf(),
        ensures
            r == self.spec_touching(*rect),
    {
        rect.x > self.x - TURN_TOLERANCE && rect.x < self.x + TURN_TOLERANCE
            && rect.y > self.y - TURN_TOLERANCE && rect.y < self.y + TURN_TOLERANCE
    }
}

/// A set of Turns for a Plane to follow.
#[derive(Clone, Debug)]
pub struct PlanePath {
    pub turns: Vec<Turn>,
}

impl PlanePath {
    /// Every turn lies within the field band.
    pub open spec fn wf(self) -> bool {
        forall|i: int| 0 <= i < self.turns@.len() ==> (#[trigger] self.turns@[i]).wf()
    }

    /// Construct a new PlanePath.
    pub fn new(turns: Vec<Turn>) -> (r: PlanePath)
        ensures
            r.turns == turns,
    {
        PlanePath { turns }
    }

    /// The turns of the stock serpentine route, as fractions of the field.
    pub open spec fn main_path_turns(width: i64, height: i64) -> Seq<Turn> {
        seq![
            Turn { x: (width * 22 / 100) as i64, y: (height * 26 / 100) as i64, direction: Direction::Down },
            Turn { x: (width * 22 / 100) as i64, y: (height * 72 / 100) as i64, direction: Direction::Right },
            Turn { x: (width * 43 / 100) as i64, y: (height * 72 / 100) as i64, direction: Direction::Up },
            Turn { x: (width * 43 / 100) as i64, y: (height * 25 / 100) as i64, direction: Direction::Right },
            Turn { x: (width * 62 / 100) as i64, y: (height * 25 / 100) as i64, direction: Direction::Down },
            Turn { x: (width * 62 / 100) as i64, y: (height * 72 / 100) as i64, direction: Direction::Right },
            Turn { x: (width * 85 / 100) as i64, y: (height * 72 / 100) as i64, direction: Direction::Up },
            Turn { x: (width * 85 / 100) as i64, y: (height * 26 / 100) as i64, direction: Direction::Right },
        ]
    }

    /// The serpentine route used by the stock field: down and up three
    /// times across the width, always ending rightward off the field.
    pub fn new_main_path(width: i64, height: i64) -> (r: PlanePath)
        requires
            0 <= width <= SIZE_LIMIT,
            0 <= height <= SIZE_LIMIT,
        ensures
            r.wf(),
            r.turns@ == PlanePath::main_path_turns(width, height),
    {
        let r = PlanePath::new(vec![
            Turn::new((width * 22 / 100, height * 26 / 100), Direction::Down),
            Turn::new((width * 22 / 100, height * 72 / 100), Direction::Right),
            Turn::new((width * 43 / 100, height * 72 / 100), Direction::Up),
            Turn::new((width * 43 / 100, height * 25 / 100), Direction::Right),
            Turn::new((width * 62 / 100, height * 25 / 100), Direction::Down),
            Turn::new((width * 62 / 100, height * 72 / 100), Direction::Right),
            Turn::new((width * 85 / 100, height * 72 / 100), Direction::Up),
            Turn::new((width * 85 / 100, height * 26 / 100), Direction::Right),
        ]);
        proof {
            assert(r.turns@ =~= PlanePath::main_path_turns(width, height));
        }
        r
    }

    /// Returns a reference to the Turns.
    pub fn turns(&self) -> (r: &Vec<Turn>)
        ensures
            r == &self.turns,
    {
        &self.turns
    }
}

} // verus!
