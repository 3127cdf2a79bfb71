//! The commands of the user interface, as decisions on a session.

pub mod output;
pub mod player;
pub mod project;
