//! Grid coordinates and the four compass directions.
//!
//! The types here are plain values that the rest of the engine reasons about.
//! The operations on them are carried out by `cogs_gamedev::grids`, behind
//! small trusted functions whose contracts spell out the full result.

use cogs_gamedev::grids;
use vstd::prelude::*;

verus! {

/// One of the four directions a cable can leave a cell by.
///
/// The y axis points down: `North` is towards smaller `y`.
#[derive(Clone, Copy, Debug, PartialEq, Eq, Hash, Structural)]
pub enum Direction {
    North,
    East,
    South,
    West,
}

/// A quarter turn.
#[derive(Clone, Copy, Debug, PartialEq, Eq, Hash, Structural)]
pub enum Rotation {
    Clockwise,
    CounterClockwise,
}

/// A cell of the grid, or a position next to it.
#[derive(Clone, Copy, Debug, PartialEq, Eq, Hash, Structural)]
pub struct Coord {
    pub x: isize,
    pub y: isize,
}

impl Direction {
    /// The opposite direction.
    pub open spec fn flipped(self) -> Direction {
        match self {
            Direction::North => Direction::South,
            Direction::East => Direction::West,
            Direction::South => Direction::North,
            Direction::West => Direction::East,
        }
    }

    /// The next direction going clockwise: north, east, south, west, north.
    pub open spec fn clockwise(self) -> Direction {
        match self {
            Direction::North => Direction::East,
            Direction::East => Direction::South,
            Direction::South => Direction::West,
            Direction::West => Direction::North,
        }
    }

    /// The next direction going counter-clockwise.
    pub open spec fn counter_clockwise(self) -> Direction {
        match self {
            Direction::North => Direction::West,
            Direction::East => Direction::North,
            Direction::South => Direction::East,
            Direction::West => Direction::South,
        }
    }

    /// This direction after one quarter turn.
    pub open spec fn rotated(self, rot: Rotation) -> Direction {
        match rot {
            Rotation::Clockwise => self.clockwise(),
            Rotation::CounterClockwise => self.counter_clockwise(),
        }
    }

    /// Whether this direction lies on the east-west axis.
    pub open spec fn horizontal(self) -> bool {
        self == Direction::East || self == Direction::West
    }

    /// The change in `x` made by one step in this direction.
    pub open spec fn dx(self) -> int {
        match self {
            Direction::East => 1,
            Direction::West => -1,
            _ => 0,
        }
    }

    /// The change in `y` made by one step in this direction.
    pub open spec fn dy(self) -> int {
        match self {
            Direction::South => 1,
            Direction::North => -1,
            _ => 0,
        }
    }

    /// The place of this direction in the order north, east, south, west.
    pub open spec fn index(self) -> int {
        match self {
            Direction::North => 0,
            Direction::East => 1,
            Direction::South => 2,
            Direction::West => 3,
        }
    }

    /// The four directions, clockwise from north.
    pub open spec fn all_spec() -> Seq<Direction> {
        seq![Direction::North, Direction::East, Direction::South, Direction::West]
    }

    /// The four directions, clockwise from north.
    pub fn all() -> (r: [Direction; 4])
        ensures
            r@ == Direction::all_spec(),
    {
        let r = [Direction::North, Direction::East, Direction::South, Direction::West];
        assert(r@ =~= Direction::all_spec());
        r
    }

    /// The opposite direction.
    pub fn flip(self) -> (r: Direction)
        ensures
            r == self.flipped(),
    {
        outside_flip(self)
    }

    /// This direction after one quarter turn.
    pub fn rotate(self, rot: Rotation) -> (r: Direction)
        ensures
            r == self.rotated(rot),
    {
        outside_rotate(self, rot)
    }

    /// Whether this direction is east or west.
    pub fn is_horizontal(self) -> (r: bool)
        ensures
            r == self.horizontal(),
    {
        outside_is_horizontal(self)
    }
}

impl Coord {
    /// Whether one step from here in direction `dir` stays within `isize`.
    pub open spec fn can_step(self, dir: Direction) -> bool {
        &&& isize::MIN <= self.x + dir.dx() <= isize::MAX
        &&& isize::MIN <= self.y + dir.dy() <= isize::MAX
    }

    /// The position one step from here in direction `dir`.
    pub open spec fn stepped(self, dir: Direction) -> Coord {
        Coord { x: (self.x + dir.dx()) as isize, y: (self.y + dir.dy()) as isize }
    }

    /// The direction of the single step that leads from here to `to`, if there
    /// is one.
    pub open spec fn step_towards(self, to: Coord) -> Option<Direction> {
        if to.x - self.x == 1 && to.y == self.y {
            Some(Direction::East)
        } else if to.x - self.x == -1 && to.y == self.y {
            Some(Direction::West)
        } else if to.x == self.x && to.y - self.y == 1 {
            Some(Direction::South)
        } else if to.x == self.x && to.y - self.y == -1 {
            Some(Direction::North)
        } else {
            None
        }
    }

    pub fn new(x: isize, y: isize) -> (r: Coord)
        ensures
            r == (Coord { x, y }),
    {
        Coord { x, y }
    }

    /// The position one step from here in direction `dir`.
    pub fn step(self, dir: Direction) -> (r: Coord)
        requires
            self.can_step(dir),
        ensures
            r == self.stepped(dir),
    {
        outside_step(self, dir)
    }

    /// Tells a move by exactly one cell along one axis from any other change
    /// of position: the direction of the move, or `None`.
    pub fn direction_to(self, to: Coord) -> (r: Option<Direction>)
        ensures
            r == self.step_towards(to),
    {
        if to.y == self.y {
            if to.x > self.x && to.x - 1 == self.x {
                Some(Direction::East)
            } else if to.x < self.x && to.x + 1 == self.x {
                Some(Direction::West)
            } else {
                None
            }
        } else if to.x == self.x {
            if to.y > self.y && to.y - 1 == self.y {
                Some(Direction::South)
            } else if to.y < self.y && to.y + 1 == self.y {
                Some(Direction::North)
            } else {
                None
            }
        } else {
            None
        }
    }
}

/// A single step leads to exactly the position that `stepped` names, and no
/// other step does.
pub proof fn lemma_step_towards_stepped(from: Coord, to: Coord, dir: Direction)
    requires
        from.can_step(dir),
    ensures
        from.step_towards(to) == Some(dir) <==> to == from.stepped(dir),
{
}

/// Calls `cogs_gamedev::grids::Direction4::flip`, which turns a direction by
/// two quarter turns: north and south swap, east and west swap.
#[verifier::external_body]
fn outside_flip(d: Direction) -> (r: Direction)
    ensures
        r == d.flipped(),
{
    let outside = match d {
        Direction::North => grids::Direction4::North,
        Direction::East => grids::Direction4::East,
        Direction::South => grids::Direction4::South,
        Direction::West => grids::Direction4::West,
    };
    match outside.flip() {
        grids::Direction4::North => Direction::North,
        grids::Direction4::East => Direction::East,
        grids::Direction4::South => Direction::South,
        grids::Direction4::West => Direction::West,
    }
}

/// Calls `cogs_gamedev::grids::Direction4::rotate`, which moves one place
/// along the cycle north, east, south, west: forwards for a clockwise turn,
/// backwards for a counter-clockwise one.
#[verifier::external_body]
fn outside_rotate(d: Direction, rot: Rotation) -> (r: Direction)
    ensures
        r == d.rotated(rot),
{
    let outside = match d {
        Direction::North => grids::Direction4::North,
        Direction::East => grids::Direction4::East,
        Direction::South => grids::Direction4::South,
        Direction::West => grids::Direction4::West,
    };
    match outside.rotate(match rot {
        Rotation::Clockwise => grids::Rotation::Clockwise,
        Rotation::CounterClockwise => grids::Rotation::CounterClockwise,
    }) {
        grids::Direction4::North => Direction::North,
        grids::Direction4::East => Direction::East,
        grids::Direction4::South => Direction::South,
        grids::Direction4::West => Direction::West,
    }
}

/// Calls `cogs_gamedev::grids::Direction4::is_horizontal`, which holds of east
/// and west only.
#[verifier::external_body]
fn outside_is_horizontal(d: Direction) -> (r: bool)
    ensures
        r == d.horizontal(),
{
    let outside = match d {
        Direction::North => grids::Direction4::North,
        Direction::East => grids::Direction4::East,
        Direction::South => grids::Direction4::South,
        Direction::West => grids::Direction4::West,
    };
    outside.is_horizontal()
}

/// Adds a direction to a position with `cogs_gamedev`'s
/// `impl Add<Direction4> for ICoord`, which adds the direction's deltas
/// field by field: north is `(0, -1)`, east `(1, 0)`, south `(0, 1)`, west
/// `(-1, 0)`. The sum must fit in `isize`.
#[verifier::external_body]
fn outside_step(pos: Coord, d: Direction) -> (r: Coord)
    requires
        pos.can_step(d),
    ensures
        r == pos.stepped(d),
{
    let outside = match d {
        Direction::North => grids::Direction4::North,
        Direction::East => grids::Direction4::East,
        Direction::South => grids::Direction4::South,
        Direction::West => grids::Direction4::West,
    };
    let sum = grids::ICoord::new(pos.x, pos.y) + outside;
    Coord { x: sum.x, y: sum.y }
}

} // verus!
