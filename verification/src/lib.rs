//! Core engine for a terminal Euchre game: cards and the shuffled deck,
//! seats in turn order, players and teams, the tick-driven game state
//! machine, and the engine-facing state of the presentation layer.

pub mod cards;
pub mod game;
pub mod interface;
pub mod player;
pub mod table;
pub mod team;
