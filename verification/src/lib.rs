//! The animation logic of a sprite-based dungeon game: which cells of a sprite
//! sheet make up an animation, and which of them is shown at each tick.

pub mod animation;
pub mod sprite;
pub mod resources;
