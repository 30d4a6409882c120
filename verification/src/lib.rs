//! A small chess engine: a static evaluator, a depth-limited alpha-beta
//! search, the session that holds one position and one pending search, and
//! the line protocol that drives them.
//!
//! The rules of chess themselves (legal moves, game end, notation) are
//! `shakmaty`'s; `rules` states what this library takes from it.

pub mod board;
pub mod engine;
pub mod eval;
pub mod pieces;
pub mod rules;
pub mod runner;
pub mod search;
pub mod symmetry;
pub mod tables;
pub mod text;
