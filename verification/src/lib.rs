//! A minimal chess-board simulator: an 8x8 board of optional pieces, a
//! single-step pseudo-legal move generator driven by per-piece direction
//! tables, deterministic first-candidate selection, and a game-loop state
//! machine that stops on a time limit, a move limit, or when no candidate
//! moves exist for the side to move.

pub mod board;
pub mod movegen;
pub mod render;
pub mod step;
