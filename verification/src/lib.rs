//! Decision agent for a turn-based, grid-world multiplayer snake game.
//!
//! On each turn the agent receives a snapshot of the board (dimensions, food,
//! every snake's body and health) and returns exactly one of four directional
//! moves. The decision combines a collision oracle (which moves are
//! survivable this instant), a one-step lookahead scoring heuristic (which
//! survivable move is best), and a selector that breaks score ties at random.

#![verifier::loop_isolation(false)]

pub mod laws;
pub mod model;
pub mod scoring;
pub mod selector;

pub use model::Battlesnake;
pub use model::Board;
pub use model::Coord;
pub use model::Move;
pub use selector::get_move;
pub use selector::select_move;
