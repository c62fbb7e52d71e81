//! Player-count images for games of a game-server directory.
//!
//! A request names a game; the answer is a raster image that shows the game's
//! title, its live player count and its thumbnail. The crate holds the rules
//! of that service: how a game is looked up in the status feed, how the
//! thumbnail is found, how the vector template is filled, rasterized and
//! encoded, and which step follows which answer of the two caches and of the
//! upstream site. Network and cache traffic belong to the caller.

pub mod cache;
pub mod encode;
pub mod error;
pub mod feed;
pub mod font;
pub mod laws;
pub mod raster;
pub mod render;
pub mod reply;
pub mod request;
pub mod screenshot;
pub mod template;
pub mod text;
