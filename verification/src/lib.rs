//! Core engine of a turn-based tactical encounter: pawns with stats and
//! equipment act inside a tile-based room, combat is resolved by dice math,
//! movement and targeting are constrained by a reachability grid, and the
//! simulation talks to any presentation layer through a topic-addressed
//! message bus.

pub mod a_star;
pub mod actions;
pub mod ai;
pub mod codec;
pub mod dice;
pub mod game_loop;
pub mod initializer;
pub mod interactions;
pub mod item;
pub mod messaging;
pub mod pawn;
pub mod sprite;
pub mod watch;
pub mod world;
