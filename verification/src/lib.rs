//! A small turn-based civilization game: citizens, land, buildings and a
//! hash-chained log of actions whose integrity can be checked by replaying it.
pub mod game;
