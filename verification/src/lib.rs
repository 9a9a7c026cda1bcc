//! Grid placement engine of a tile-based level editor.
//!
//! The engine snaps a cursor to the cells of a bounded field, gives every
//! cell a lookup key, keeps the sparse mapping from key to the tile that
//! occupies the cell, and decides on every tick whether the pointer stamps,
//! replaces or erases a tile.

pub mod controller;
pub mod editor;
pub mod export;
pub mod geometry;
pub mod history;
pub mod key;
pub mod store;
pub mod tile;
