//! Game-logic decisions of a networked top-down multiplayer client:
//! keyboard steering, when the locally owned player is republished, and how
//! row events about the other players become scene commands.

pub mod movement;
pub mod remote_players;
pub mod sync;
pub mod sendables;
