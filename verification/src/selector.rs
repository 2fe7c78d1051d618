//! Move selector: evaluates all four candidate moves, keeps those tied for
//! the maximum score, and picks one of them, uniformly at random when more
//! than one is tied. Even when all four moves are fatal (every score is the
//! lethal sentinel 0) a move is still returned.

use vstd::prelude::*;

use rand::Rng;

use crate::model::Battlesnake;
use crate::model::Board;
use crate::model::Move;
use crate::scoring::move_score;
use crate::scoring::score_move;

verus! {

/// The larger of two scores.
pub open spec fn max2(a: u64, b: u64) -> u64 {
    if a >= b {
        a
    } else {
        b
    }
}

/// The maximum score over the four candidate moves.
pub open spec fn max_score(board: Board, you: Battlesnake) -> u64 {
    max2(
        max2(
            max2(move_score(board, you, Move::Up), move_score(board, you, Move::Down)),
            move_score(board, you, Move::Left),
        ),
        move_score(board, you, Move::Right),
    )
}

/// The moves tied for the maximum score, in the fixed order Up, Down, Left,
/// Right. Never empty: the maximum is attained by at least one move.
pub open spec fn best_moves(board: Board, you: Battlesnake) -> Seq<Move> {
    let mx = max_score(board, you);
    (if move_score(board, you, Move::Up) == mx {
        seq![Move::Up]
    } else {
        Seq::<Move>::empty()
    }) + (if move_score(board, you, Move::Down) == mx {
        seq![Move::Down]
    } else {
        Seq::<Move>::empty()
    }) + (if move_score(board, you, Move::Left) == mx {
        seq![Move::Left]
    } else {
        Seq::<Move>::empty()
    }) + (if move_score(board, you, Move::Right) == mx {
        seq![Move::Right]
    } else {
        Seq::<Move>::empty()
    })
}

/// The selection pool is sound and total: it always holds between one and
/// four moves, every move in it scores exactly the maximum, and no move
/// scores more than the maximum. Hence the selector always has a move to
/// return, and a move that scores below the maximum is never in the pool.
pub proof fn lemma_best_moves_sound(board: Board, you: Battlesnake)
    ensures
        1 <= best_moves(board, you).len() <= 4,
        forall|i: int|
            0 <= i < best_moves(board, you).len() ==> move_score(
                board,
                you,
                best_moves(board, you)[i],
            ) == max_score(board, you),
        forall|m: Move| move_score(board, you, m) <= max_score(board, you),
{
    assert forall|m: Move| move_score(board, you, m) <= max_score(board, you) by {
        match m {
            Move::Up => {},
            Move::Down => {},
            Move::Left => {},
            Move::Right => {},
        }
    }
}

/// Relies on rand::thread_rng and rand::Rng::gen: a fresh draw from the
/// thread-local generator, uniform over all values of the type. Nothing can
/// be promised of a random value.
#[verifier::external_body]
fn random_u64() -> u64 {
    rand::thread_rng().gen()
}

/// Selects the move at position `r % n` among the `n` moves tied for the
/// maximum score, taken in the fixed order Up, Down, Left, Right. The draw
/// `r` is an explicit dependency so that selection is reproducible by seed;
/// a uniformly random `r` selects each tied move with (essentially) equal
/// probability. Even when every move is fatal, a move is returned.
pub fn select_move(board: &Board, you: &Battlesnake, r: u64) -> (m: Move)
    ensures
        ({
            let best = best_moves(*board, *you);
            m == best[(r % (best.len() as u64)) as int]
        }),
{
    let su = score_move(board, you, Move::Up);
    let sd = score_move(board, you, Move::Down);
    let sl = score_move(board, you, Move::Left);
    let sr = score_move(board, you, Move::Right);
    let mut mx = su;
    if sd > mx {
        mx = sd;
    }
    if sl > mx {
        mx = sl;
    }
    if sr > mx {
        mx = sr;
    }
    assert(mx == max_score(*board, *you));
    let mut cands: Vec<Move> = Vec::new();
    if su == mx {
        cands.push(Move::Up);
    }
    if sd == mx {
        cands.push(Move::Down);
    }
    if sl == mx {
        cands.push(Move::Left);
    }
    if sr == mx {
        cands.push(Move::Right);
    }
    proof {
        lemma_best_moves_sound(*board, *you);
        assert(cands@ =~= best_moves(*board, *you));
    }
    let idx = (r % (cands.len() as u64)) as usize;
    cands[idx]
}

/// Produces exactly one move for the turn: one of the moves tied for the
/// maximum score, chosen uniformly at random among them when several are
/// tied. It never fails to answer, even when death is unavoidable.
pub fn get_move(board: &Board, you: &Battlesnake) -> (m: Move)
    ensures
        best_moves(*board, *you).contains(m),
        move_score(*board, *you, m) == max_score(*board, *you),
{
    let r = random_u64();
    let m = select_move(board, you, r);
    proof {
        lemma_best_moves_sound(*board, *you);
        let best = best_moves(*board, *you);
        assert(best[(r % (best.len() as u64)) as int] == m);
    }
    m
}

} // verus!
