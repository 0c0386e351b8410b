pub mod game;
pub mod laws;
pub mod model;

pub use crate::game::{is_alive, neighbors, Game};
