//! A terminal-styled, single-page portfolio: fixed biographical content laid
//! out into nested bordered panels by percentage-based region splits.
//!
//! The library computes the full visual composition as plain data: given a
//! viewport, it produces the list of panels, paragraphs and links together
//! with the rectangular region each one occupies. Painting that composition
//! onto a terminal surface is left to the embedding program.

pub mod content;
pub mod geometry;
pub mod laws;
pub mod scene;
pub mod style;
