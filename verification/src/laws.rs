//! Laws of the decision algorithm that relate the collision oracle, the
//! scoring heuristic and the move selector.

use vstd::prelude::*;

use crate::model::Battlesnake;
use crate::model::Board;
use crate::model::Move;
use crate::scoring::body_fatal;
use crate::scoring::food_reachable;
use crate::scoring::move_score;
use crate::scoring::survives;
use crate::scoring::wall_fatal;
use crate::selector::best_moves;
use crate::selector::max_score;

verus! {

/// When the agent's head is at x = 0, moving Left is a wall collision and
/// scores the lethal sentinel 0, whatever the rest of the board, the y
/// coordinate and the agent's health.
pub proof fn lemma_left_at_west_wall_scores_zero(board: Board, you: Battlesnake)
    requires
        you.head.x == 0,
    ensures
        wall_fatal(board, you, Move::Left),
        move_score(board, you, Move::Left) == 0,
{
}

/// When some snake's body segment sits exactly one step from the agent's
/// head in direction `m`, the move `m` is a body collision and scores the
/// lethal sentinel 0, regardless of the other board contents. The agent's
/// own neck (its second body segment) is the degenerate case.
pub proof fn lemma_body_segment_blocks_move(
    board: Board,
    you: Battlesnake,
    m: Move,
    i: int,
    j: int,
)
    requires
        0 <= i < board.snakes@.len(),
        0 <= j < board.snakes@[i].body@.len(),
        board.snakes@[i].body@[j].x == you.head.stepped_x(m),
        board.snakes@[i].body@[j].y == you.head.stepped_y(m),
    ensures
        body_fatal(board, you, m),
        move_score(board, you, m) == 0,
{
}

/// The score 0 is reserved as the lethal sentinel: as long as the agent has
/// any health left, a move scores 0 exactly when it is immediately fatal, so
/// a surviving move (scoring at least 1) is never confused with a lethal one.
pub proof fn lemma_zero_score_means_fatal(board: Board, you: Battlesnake, m: Move)
    requires
        you.health >= 1,
    ensures
        move_score(board, you, m) == 0 <==> !survives(board, you, m),
        survives(board, you, m) ==> move_score(board, you, m) >= 1,
{
}

/// When exactly one surviving move puts the new head within Manhattan
/// distance of the agent's health of some food, and no other surviving move
/// does, that move alone is tied for the maximum score: the selector picks
/// it deterministically, whatever the random draw.
pub proof fn lemma_lone_food_move_is_selected(board: Board, you: Battlesnake, m: Move)
    requires
        survives(board, you, m),
        food_reachable(board, you.head.stepped_x(m), you.head.stepped_y(m), you.health),
        forall|m2: Move|
            m2 != m ==> !(survives(board, you, m2) && food_reachable(
                board,
                you.head.stepped_x(m2),
                you.head.stepped_y(m2),
                you.health,
            )),
    ensures
        max_score(board, you) == u64::MAX,
        best_moves(board, you) =~= seq![m],
{
    assert(move_score(board, you, m) == u64::MAX);
    assert forall|m2: Move| m2 != m implies move_score(board, you, m2) < u64::MAX by {
        assert((you.health as u64) < u64::MAX);
    }
    match m {
        Move::Up => {},
        Move::Down => {},
        Move::Left => {},
        Move::Right => {},
    }
}

} // verus!
