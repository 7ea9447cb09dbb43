//! Engine-independent core of a small tile-based 2D game: the chunked tile
//! map, the camera's chunk position and visible bounds, per-chunk visibility
//! culling and the input decisions that drive them.

pub mod division;
pub mod logger;
pub mod map;
pub mod plugin;
pub mod settings;
pub mod vector;
