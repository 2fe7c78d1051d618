//! Grid model and move vocabulary: coordinates, the four directional moves
//! and the delta each implies, and the board snapshot handed to the agent
//! each turn.

use vstd::prelude::*;

verus! {

/// One of the four directional moves. The grid uses a Cartesian y-axis:
/// `Up` increases y, `Down` decreases y.
#[derive(Clone, Copy, PartialEq, Eq, Structural, Debug)]
pub enum Move {
    Up,
    Down,
    Left,
    Right,
}

/// A point on the grid. Coordinates are non-negative; arithmetic that would
/// leave that range yields "invalid", never a wrapped value.
#[derive(Clone, Copy, PartialEq, Eq, Structural, Debug)]
pub struct Coord {
    pub x: u32,
    pub y: u32,
}

/// The horizontal delta a move implies.
pub open spec fn delta_x(m: Move) -> int {
    match m {
        Move::Left => -1,
        Move::Right => 1,
        _ => 0,
    }
}

/// The vertical delta a move implies.
pub open spec fn delta_y(m: Move) -> int {
    match m {
        Move::Up => 1,
        Move::Down => -1,
        _ => 0,
    }
}

impl Move {
    /// The lowercase wire name of the move.
    pub open spec fn spec_name(self) -> Seq<char> {
        match self {
            Move::Up => "up"@,
            Move::Down => "down"@,
            Move::Left => "left"@,
            Move::Right => "right"@,
        }
    }

    /// The lowercase wire name of the move.
    pub fn name(&self) -> (s: &'static str)
        ensures
            s@ == self.spec_name(),
    {
        match self {
            Move::Up => "up",
            Move::Down => "down",
            Move::Left => "left",
            Move::Right => "right",
        }
    }
}

impl Coord {
    /// The x component one step from `self` in direction `m`, as an
    /// unbounded integer.
    pub open spec fn stepped_x(self, m: Move) -> int {
        self.x + delta_x(m)
    }

    /// The y component one step from `self` in direction `m`, as an
    /// unbounded integer.
    pub open spec fn stepped_y(self, m: Move) -> int {
        self.y + delta_y(m)
    }

    /// Applies the move's delta. Fails (returns `None`) when the result
    /// would not be a valid coordinate: a negative component, or one beyond
    /// what the coordinate type can carry.
    pub fn advance(&self, move_: &Move) -> (r: Option<Coord>)
        ensures
            r is Some <==> 0 <= self.stepped_x(*move_) <= u32::MAX && 0 <= self.stepped_y(*move_)
                <= u32::MAX,
            r matches Some(c) ==> c.x == self.stepped_x(*move_) && c.y == self.stepped_y(*move_),
    {
        match move_ {
            Move::Up => if self.y < u32::MAX {
                Some(Coord { x: self.x, y: self.y + 1 })
            } else {
                None
            },
            Move::Down => if self.y > 0 {
                Some(Coord { x: self.x, y: self.y - 1 })
            } else {
                None
            },
            Move::Left => if self.x > 0 {
                Some(Coord { x: self.x - 1, y: self.y })
            } else {
                None
            },
            Move::Right => if self.x < u32::MAX {
                Some(Coord { x: self.x + 1, y: self.y })
            } else {
                None
            },
        }
    }
}

/// One snake on the board: its identity, ordered body (head first) and
/// current health.
pub struct Battlesnake {
    pub id: String,
    pub name: String,
    pub health: u32,
    pub body: Vec<Coord>,
    pub head: Coord,
    pub length: u32,
    pub latency: String,
    pub shout: Option<String>,
    pub squad: Option<String>,
}

/// The board snapshot at the start of a turn. The hazard set is part of the
/// data model but is never consulted by the heuristic.
pub struct Board {
    pub height: u32,
    pub width: u32,
    pub food: Vec<Coord>,
    pub snakes: Vec<Battlesnake>,
    pub hazards: Vec<Coord>,
}

} // verus!
