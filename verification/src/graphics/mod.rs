//! Graphics types and text handling.

pub mod text;
pub mod types;
