[package]
name = "ggez_text"
version = "0.1.0"
edition = "2021"
publish = false

[dependencies]
gfx_glyph = "0.13"
gfx = "0.17"
mint = "0.5"
nalgebra = "0.16"
