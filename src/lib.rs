//! Placement core of a hex-grid building game: axial hex coordinates and
//! their world-space geometry, critically damped springs, the tile grid with
//! its hover highlight, and the state machine that places structures.
//!
//! All quantities are fixed-point integers: one unit (one tile, one world
//! unit, one second) is `SCALE` steps.
pub mod fixed;
pub mod vector;
pub mod tile_position;
pub mod spring;
pub mod tiles;
pub mod mouse_position;
pub mod placement;
