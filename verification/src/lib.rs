//! Tiles of the Mandelbrot set, addressed by zoom level and grid position,
//! rendered on first request and kept in a store for later ones.
//!
//! The crate holds the integer side of that work: colouring escape counts,
//! laying pixels out in a raster, naming the place of a tile in the store and
//! deciding, step by step, how a request is served.  All of it is verified
//! but the PNG encoder, which is the `image` crate's.  The floating-point
//! evaluation of the set and the file system are the caller's.

pub mod color;
pub mod config;
pub mod path;
pub mod png;
pub mod raster;
pub mod store;
pub mod world;
