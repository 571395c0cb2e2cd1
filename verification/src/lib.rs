//! Navigation logic of a planetary rover.
//!
//! A rover has a position on a projected map and a compass heading. It
//! turns on the spot, and it steps forward and backward over ground that
//! has been surveyed for it: the survey says where the obstacles are and
//! where a step ends once the map has wrapped at its edges. A request
//! drives the rover with a batch of one-letter commands.
//!
//! * [`directions`]: the compass and its quarter turns.
//! * [`terrain`]: positions, and what a survey reports.
//! * [`rover`]: the rover and its four moves.
//! * [`commands`]: the letters that stand for the moves.
//! * [`server`]: batches of commands, and the answers to them.
pub mod commands;
pub mod directions;
pub mod rover;
pub mod server;
pub mod terrain;

pub use commands::Command;
pub use directions::Directions;
pub use rover::MarsRover;
pub use server::{Reply, Session, Step, WebServer};
pub use terrain::{Coordinate, Prospect, Surroundings};
