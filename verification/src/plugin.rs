//! The game's subsystems, one module each.

pub mod camera;
pub mod input;
pub mod map;
pub mod player;
pub mod texture_loader;
