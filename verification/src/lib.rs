//! A scrollable viewer core for a fixed three-dimensional grid of dungeon
//! tiles.
//!
//! The crate models the world as a flat, immutable grid of [`tile::Tile`]
//! values, a [`viewport::Viewport`] that scrolls a fixed-size window over the
//! grid with clamping at the edges, a visibility resolver that classifies each
//! tile into a [`resolve::DisplayCategory`], and a render projector that turns
//! the visible window into a sequence of screen-space draw commands. Window
//! creation, input decoding and the actual drawing are left to callers.

use vstd::prelude::*;

pub mod render;
pub mod resolve;
pub mod tile;
pub mod viewport;
pub mod world;

verus! {

/// Default world extent along the x axis, in tiles.
pub const WORLD_X: u32 = 30;

/// Default world extent along the y axis, in tiles.
pub const WORLD_Y: u32 = 30;

/// Default world extent along the z axis, in layers.
pub const WORLD_Z: u32 = 10;

/// Default screen width, in pixels.
pub const SCREEN_PIXELS_X: u32 = 600;

/// Default screen height, in pixels.
pub const SCREEN_PIXELS_Y: u32 = 400;

/// Default width of the visible window, in tiles.
pub const SCREEN_TILES_X: u32 = 30;

/// Default height of the visible window, in tiles.
pub const SCREEN_TILES_Y: u32 = 20;

/// Default depth of the visible window: a single z layer is shown at a time.
pub const SCREEN_TILES_Z: u32 = 1;

} // verus!
