//! The rules of a fleet retreating in front of an alien swarm: the bank, the
//! yard, the run across the map, how a ship dies and what is salvaged of it,
//! the orders, the scene and its verdict, and the command line, each with its
//! contract. The engine that draws and flies it all is not here; what it asks
//! of these rules is.

pub mod roles;
pub mod text;
pub mod bank;
pub mod run;
pub mod refit;
pub mod salvage;
pub mod args;
pub mod orders;
pub mod state;
pub mod scene;
pub mod squadron;
pub mod field;
pub mod pacing;
pub mod production;
pub mod tide;
pub mod wreck;
pub mod report;
pub mod sparks;
pub mod work;
pub mod flags;
pub mod laws;
