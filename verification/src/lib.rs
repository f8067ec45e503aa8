//! A tic-tac-toe engine: the board, the bookkeeping of free cells, move
//! validation, outcome evaluation and the turn-taking state machine of a game
//! between a human and a computer that moves at random.

pub mod coord;
pub mod mark;
pub mod board;
pub mod free_cells;
pub mod outcome;
pub mod random;
pub mod engine;
pub mod game_loop;
