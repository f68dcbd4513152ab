//! A 2D sprite batcher. Draws of textured quads are checked against the
//! backend's textures, merged into batches of one texture and one target, and
//! handed to the backend once per frame with their quads.

pub mod backend;
pub mod batch;
pub mod commons;
pub mod graphics;
pub mod quad;
pub mod texture;
