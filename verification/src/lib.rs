//! Read-side views over a simulated football world.
//!
//! A [`snapshot::Snapshot`] holds the world at one instant: continents,
//! countries, leagues, teams, players and match results. A
//! [`container::Container`] is the slot of the current snapshot. Four queries
//! read from it: recent events, the state of a player, the state of a team
//! and the state of a squad. Each resolves what the request names, fails at
//! once where that cannot be done, and otherwise assembles its answer from
//! the derived figures in [`stats`].
//!
//! Figures that are fractions are held as whole numbers of millionths: a
//! share of 0.75 is 750 000, a rating of 6.85 is 6 850 000.

pub mod container;
pub mod date;
pub mod entities;
pub mod error;
pub mod events;
pub mod graph;
pub mod match_storage;
pub mod player_state;
pub mod sequences;
pub mod slug_index;
pub mod snapshot;
pub mod squad_state;
pub mod stats;
pub mod team_ai_state;
pub mod text;
pub mod traversal;
