//! A verified engine for turn-based board games of the chess family: packed square
//! coordinates, boards, move generation from rule tables of rays, legality and attack
//! queries, and a game orchestrator that drives move-sources to an outcome.

pub mod algorithm;
pub mod algorithms;
pub mod chess;
pub mod chess_like;
pub mod contrasting_chess;
pub mod coords;
pub mod game;
pub mod move_list;
pub mod rules;
