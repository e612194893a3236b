//! Core logic of a grid-based 2D level editor.
//!
//! A session starts by typing an asset path for the tile atlas, then enters
//! an edit mode in which mouse clicks place tiles, hazards, mobs, or a player
//! marker on a 24-unit grid.  This crate holds the verified logic of that
//! editor: the screen-to-world coordinate mapper, the UI occlusion filter
//! that keeps clicks on UI panels from reaching the world, the placement
//! engine that dispatches on the active tool, and the editor state (tool,
//! selected tile, camera, path input).  Windowing, rendering and the engine's
//! entity storage stay outside; they hand this crate plain values.

pub mod editor;
pub mod geometry;
pub mod input;
pub mod ui;
pub mod world;
