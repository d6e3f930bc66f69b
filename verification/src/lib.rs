//! Rich text for a 2D game framework: fragments of text with their own colour,
//! font and scale, gathered into a `Text` that knows its contents, its layout
//! within bounds and its measured dimensions.
//!
//! Values that the renderer keeps as single-precision floats (colour channels,
//! font scales, bounds) are held here by their IEEE-754 bit patterns, so that
//! they pass through the verified logic unchanged.

pub mod graphics;
