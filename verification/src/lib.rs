//! Rectangle manipulation for a pointer-driven card table: edge-proximity
//! classification, move and resize with a minimum size, and the single-owner
//! grab state machine that applies them to a registry of cards.
//!
//! Coordinates are whole units (`i32`). Every sum that could leave the `i32`
//! range is pinned to the nearest bound, so no operation here can fail.

pub mod card;
pub mod deck;
pub mod edge;
pub mod geometry;
pub mod grid;
pub mod mouse;
pub mod player;
pub mod text;
