//! Textures as the renderer keeps them.
pub mod texture;
