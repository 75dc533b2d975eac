//! A verified game-session registry and connection protocol for a
//! two-player dice game.
//!
//! [`game`] holds the registry of active games and its atomic
//! create/join/leave/roll operations; [`protocol`] drives one
//! connection's lifecycle against that registry; [`player`] models a
//! seated player. Transport, identity issuance and routing live
//! outside the library and hand it plain values.

pub mod game;
pub mod player;
pub mod protocol;
