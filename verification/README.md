# ggez_text

Rich text for a 2D game framework, verified with Verus.

- `src/graphics/types.rs`: plain graphics values (colour, point, blend mode). Values the
  renderer keeps as single-precision floats are held by their IEEE-754 bit patterns.
- `src/graphics/text.rs`: fonts, text fragments and `Text` — its fragments, bounds and
  alignment, font settings, cached contents and dimensions, and the section description
  that the glyph renderer draws — with the laws that tie these operations together.
- `app/lib.rs`: the renderer side, built on `gfx_glyph`: float conversions, font loading,
  glyph layout for measuring, queueing and drawing with the screen transform.
