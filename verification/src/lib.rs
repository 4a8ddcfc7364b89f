//! A scrolling text marquee rendered on a simulated LED matrix.
//!
//! Typed text is resolved into a row of positioned glyphs, the glyph row
//! scrolls leftward and recycles, and every tick a scan turns the glyph
//! geometry into a set of lit grid cells that is then applied to a fixed
//! array of light cells. All geometry is carried in integer micro-units
//! (millionths of a world unit), so every step of the pipeline is exact.

pub mod catalog;
pub mod config;
pub mod grid;
pub mod layout;
pub mod pipeline;
pub mod scan;
pub mod stage;
pub mod text_entry;
