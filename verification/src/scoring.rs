//! Collision oracle and one-step lookahead scoring heuristic.
//!
//! A proposed move is fatal when it would carry the head off the board or
//! onto any snake's body segment (the agent's own body included). A fatal
//! move scores exactly 0, the lethal sentinel. A surviving move scores the
//! maximum representable score when some food lies within Manhattan distance
//! of the agent's health from the new head ("reachable before starvation"),
//! and the agent's health otherwise.

use vstd::prelude::*;

use crate::model::Battlesnake;
use crate::model::Board;
use crate::model::Coord;
use crate::model::Move;

verus! {

/// The absolute difference of two integers.
pub open spec fn abs_diff(a: int, b: int) -> int {
    if a >= b {
        a - b
    } else {
        b - a
    }
}

/// Manhattan distance between two points given as unbounded integers.
pub open spec fn manhattan(x1: int, y1: int, x2: int, y2: int) -> int {
    abs_diff(x1, x2) + abs_diff(y1, y2)
}

/// Whether moving the head of `you` in direction `m` leaves the board:
/// a negative component, or one at or beyond the board's width or height.
pub open spec fn wall_fatal(board: Board, you: Battlesnake, m: Move) -> bool {
    you.head.stepped_x(m) < 0 || you.head.stepped_x(m) >= board.width || you.head.stepped_y(m) < 0
        || you.head.stepped_y(m) >= board.height
}

/// Whether some body segment of some snake on the board sits at (x, y).
pub open spec fn occupied(board: Board, x: int, y: int) -> bool {
    exists|i: int, j: int|
        0 <= i < board.snakes@.len() && 0 <= j < board.snakes@[i].body@.len()
            && board.snakes@[i].body@[j].x == x && board.snakes@[i].body@[j].y == y
}

/// Whether moving the head of `you` in direction `m` steps onto an existing
/// body segment of any snake (the "don't reverse into your own neck" case is
/// the degenerate case against the agent's own body).
pub open spec fn body_fatal(board: Board, you: Battlesnake, m: Move) -> bool {
    occupied(board, you.head.stepped_x(m), you.head.stepped_y(m))
}

/// Whether the agent survives the immediate step of moving in direction `m`:
/// neither a wall collision nor a body collision.
pub open spec fn survives(board: Board, you: Battlesnake, m: Move) -> bool {
    !wall_fatal(board, you, m) && !body_fatal(board, you, m)
}

/// Whether some food on the board lies within Manhattan distance `health`
/// of the point (x, y).
pub open spec fn food_reachable(board: Board, x: int, y: int, health: u32) -> bool {
    exists|k: int|
        0 <= k < board.food@.len() && manhattan(
            x,
            y,
            board.food@[k].x as int,
            board.food@[k].y as int,
        ) <= health
}

/// The desirability score of moving in direction `m`: 0 (the lethal
/// sentinel) when the move is immediately fatal; the maximum representable
/// score when the new head is within reach of some food before starvation;
/// the agent's current health otherwise.
pub open spec fn move_score(board: Board, you: Battlesnake, m: Move) -> u64 {
    if !survives(board, you, m) {
        0
    } else if food_reachable(board, you.head.stepped_x(m), you.head.stepped_y(m), you.health) {
        u64::MAX
    } else {
        you.health as u64
    }
}

/// Decides whether moving in direction `m` is survivable this instant:
/// the new head stays on the board and lands on no snake's body segment.
pub fn move_survives(board: &Board, you: &Battlesnake, m: Move) -> (b: bool)
    ensures
        b == survives(*board, *you, m),
{
    let nh = match you.head.advance(&m) {
        // An invalid coordinate (negative, or beyond what the coordinate
        // type carries, hence at or beyond any board width) is a wall
        // collision.
        None => {
            return false;
        },
        Some(c) => c,
    };
    if nh.x >= board.width || nh.y >= board.height {
        return false;
    }
    let mut i: usize = 0;
    while i < board.snakes.len()
        invariant
            0 <= i <= board.snakes@.len(),
            forall|a: int, b: int|
                0 <= a < i && 0 <= b < board.snakes@[a].body@.len() ==> !(
                board.snakes@[a].body@[b].x == nh.x && board.snakes@[a].body@[b].y == nh.y),
        decreases board.snakes@.len() - i,
    {
        let s = &board.snakes[i];
        let mut j: usize = 0;
        while j < s.body.len()
            invariant
                0 <= j <= s.body@.len(),
                forall|b: int|
                    0 <= b < j ==> !(s.body@[b].x == nh.x && s.body@[b].y == nh.y),
            decreases s.body@.len() - j,
        {
            if s.body[j].x == nh.x && s.body[j].y == nh.y {
                return false;
            }
            j += 1;
        }
        i += 1;
    }
    true
}

/// Scores the move `m` from the agent's current head: 0 when fatal, the
/// maximum representable score when the new head is within Manhattan
/// distance `you.health` of some food, and `you.health` otherwise.
pub fn score_move(board: &Board, you: &Battlesnake, m: Move) -> (s: u64)
    ensures
        s == move_score(*board, *you, m),
{
    if !move_survives(board, you, m) {
        return 0;
    }
    let nh = match you.head.advance(&m) {
        None => {
            // A surviving move stays strictly inside the board, so its new
            // head is a valid coordinate.
            proof {
                assert(false);
            }
            Coord { x: 0, y: 0 }
        },
        Some(c) => c,
    };
    let mut k: usize = 0;
    while k < board.food.len()
        invariant
            0 <= k <= board.food@.len(),
            forall|t: int|
                0 <= t < k ==> manhattan(
                    nh.x as int,
                    nh.y as int,
                    board.food@[t].x as int,
                    board.food@[t].y as int,
                ) > you.health,
        decreases board.food@.len() - k,
    {
        let f = &board.food[k];
        let dx: u64 = if nh.x >= f.x {
            (nh.x - f.x) as u64
        } else {
            (f.x - nh.x) as u64
        };
        let dy: u64 = if nh.y >= f.y {
            (nh.y - f.y) as u64
        } else {
            (f.y - nh.y) as u64
        };
        if dx + dy <= you.health as u64 {
            return u64::MAX;
        }
        k += 1;
    }
    you.health as u64
}

} // verus!
