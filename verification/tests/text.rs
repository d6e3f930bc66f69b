use ggez_text::graphics::text::{
    Align, DestShift, Font, FontId, PixelRect, Scale, Text, TextFragment,
};
use ggez_text::graphics::types::{white, BlendMode, Color, Point2, F32_INFINITY_BITS, F32_ONE_BITS};

fn bits(x: f32) -> u32 {
    x.to_bits()
}

fn rect(max_x: i32, max_y: i32) -> Option<PixelRect> {
    Some(PixelRect { min_x: 0, min_y: 0, max_x, max_y })
}

fn red() -> Color {
    Color { r: bits(1.0), g: 0, b: 0, a: bits(1.0) }
}

#[test]
fn fragment_from_str_has_no_options() {
    let f = TextFragment::from("hello");
    assert_eq!(f.text, "hello");
    assert_eq!(f.color, None);
    assert_eq!(f.font, None);
    assert_eq!(f.scale, None);
}

#[test]
fn fragment_from_char_and_string() {
    let f = TextFragment::from('é');
    assert_eq!(f.text, "é");
    let g = TextFragment::from(String::from("abc"));
    assert_eq!(g.text, "abc");
    assert_eq!(g.color, None);
    let h = TextFragment::new("x");
    assert_eq!(h, TextFragment::from("x"));
}

#[test]
fn fragment_builders_set_one_option_each() {
    let font = Font::from_font_id(FontId(3));
    let f = TextFragment::new("a").color(red()).font(font).scale(Scale::uniform(bits(20.0)));
    assert_eq!(f.text, "a");
    assert_eq!(f.color, Some(red()));
    assert_eq!(f.font, Some(font));
    assert_eq!(f.scale, Some(Scale { x: bits(20.0), y: bits(20.0) }));
}

#[test]
fn fragment_from_tuple_sets_font_and_scale() {
    let font = Font::from_font_id(FontId(2));
    let f = TextFragment::from(("abc", font, Scale::uniform(bits(12.0))));
    assert_eq!(f.text, "abc");
    assert_eq!(f.color, None);
    assert_eq!(f.font, Some(font));
    assert_eq!(f.scale, Some(Scale { x: bits(12.0), y: bits(12.0) }));
}

#[test]
fn default_fragment_is_empty() {
    let f = TextFragment::default();
    assert_eq!(f.text, "");
    assert_eq!(f.color, None);
}

#[test]
fn font_defaults_to_first_font() {
    assert_eq!(Font::default().font_id(), FontId(0));
    assert_eq!(Font::from_font_id(FontId(7)).font_id(), FontId(7));
    assert_eq!(FontId::default(), FontId(0));
}

#[test]
fn white_is_all_ones() {
    let w = white();
    assert_eq!(w, Color { r: F32_ONE_BITS, g: F32_ONE_BITS, b: F32_ONE_BITS, a: F32_ONE_BITS });
    assert_eq!(f32::from_bits(w.r), 1.0);
    assert_eq!(F32_INFINITY_BITS, f32::INFINITY.to_bits());
}

#[test]
fn new_text_holds_one_fragment() {
    let mut t = Text::new("hi");
    assert_eq!(t.fragments().len(), 1);
    assert_eq!(t.fragments()[0].text, "hi");
    assert_eq!(t.contents(), "hi");
}

#[test]
fn add_appends_text_to_contents() {
    let mut t = Text::new("Hello, ");
    assert_eq!(t.contents(), "Hello, ");
    t.add("world").add('!');
    assert_eq!(t.contents(), "Hello, world!");
    t.add_fragment(TextFragment::from(String::from("?")));
    assert_eq!(t.contents(), "Hello, world!?");
}

#[test]
fn contents_of_empty_text_is_empty() {
    let mut t = Text::default();
    assert_eq!(t.contents(), "");
    assert_eq!(t.fragments().len(), 0);
}

#[test]
fn contents_is_stable() {
    let mut t = Text::new("abc");
    let a = t.contents();
    let b = t.contents();
    assert_eq!(a, b);
}

#[test]
fn fragments_mut_refreshes_contents() {
    let mut t = Text::new("abc");
    assert_eq!(t.contents(), "abc");
    t.fragments_mut()[0].text = String::from("xyz");
    assert_eq!(t.fragments()[0].text, "xyz");
    assert_eq!(t.contents(), "xyz");
}

#[test]
fn fragments_mut_drops_cached_dimensions() {
    let mut t = Text::new("abc");
    assert_eq!(t.dimensions(&[rect(5, 5)]), (5, 5));
    t.fragments_mut()[0].text = String::from("abcdef");
    assert_eq!(t.cached_dimensions(), None);
    assert_eq!(t.dimensions(&[rect(10, 5)]), (10, 5));
}

#[test]
fn clone_has_same_contents() {
    let mut t = Text::new("abc");
    assert_eq!(t.contents(), "abc");
    t.fragments_mut()[0].text = String::from("def");
    let mut c = t.clone();
    assert_eq!(c.contents(), "def");
    assert_eq!(t.contents(), "def");
    c.add("x");
    assert_eq!(c.contents(), "defx");
    assert_eq!(t.contents(), "def");
}

#[test]
fn unbounded_text_is_left_aligned_and_unshifted() {
    let mut t = Text::new("abc");
    t.set_bounds(Point2::new(bits(f32::INFINITY), bits(100.0)), Align::Right);
    let s = t.generate_varied_section(None);
    assert_eq!(s.h_align, Align::Left);
    assert_eq!(s.dest_shift, DestShift::Zero);
    assert_eq!(s.bounds, Point2::new(bits(f32::INFINITY), bits(100.0)));
}

#[test]
fn bounded_text_keeps_alignment() {
    let mut t = Text::new("abc");
    t.set_bounds(Point2::new(bits(200.0), bits(100.0)), Align::Center);
    let s = t.generate_varied_section(None);
    assert_eq!(s.h_align, Align::Center);
    assert_eq!(s.dest_shift, DestShift::HalfWidth);
    t.set_bounds(Point2::new(bits(200.0), bits(100.0)), Align::Right);
    assert_eq!(t.generate_varied_section(None).dest_shift, DestShift::FullWidth);
    t.set_bounds(Point2::new(bits(200.0), bits(100.0)), Align::Left);
    assert_eq!(t.generate_varied_section(None).dest_shift, DestShift::Zero);
}

#[test]
fn negative_infinity_bounds_still_wrap() {
    let mut t = Text::new("abc");
    t.set_bounds(Point2::new(bits(f32::NEG_INFINITY), bits(1.0)), Align::Center);
    let s = t.generate_varied_section(None);
    assert_eq!(s.h_align, Align::Center);
    assert_eq!(s.dest_shift, DestShift::HalfWidth);
}

#[test]
fn fragment_options_take_precedence() {
    let mut t = Text::new(TextFragment::new("a").color(red()).font(Font::from_font_id(FontId(4))));
    t.add(TextFragment::new("b").scale(Scale::uniform(bits(30.0))));
    t.set_font(Font::from_font_id(FontId(1)), Scale::uniform(bits(10.0)));
    let blue = Color { r: 0, g: 0, b: bits(1.0), a: bits(1.0) };
    let s = t.generate_varied_section(Some(blue));
    assert_eq!(s.text.len(), 2);
    assert_eq!(s.text[0].text, "a");
    assert_eq!(s.text[0].color, red());
    assert_eq!(s.text[0].font_id, FontId(4));
    assert_eq!(s.text[0].scale, Scale::uniform(bits(10.0)));
    assert_eq!(s.text[1].text, "b");
    assert_eq!(s.text[1].color, blue);
    assert_eq!(s.text[1].font_id, FontId(1));
    assert_eq!(s.text[1].scale, Scale::uniform(bits(30.0)));
    let plain = t.generate_varied_section(None);
    assert_eq!(plain.text[1].color, white());
}

#[test]
fn default_text_uses_default_font_and_scale() {
    let t = Text::new("a");
    let s = t.generate_varied_section(None);
    assert_eq!(s.text[0].font_id, FontId(0));
    assert_eq!(s.text[0].scale, Scale { x: bits(16.0), y: bits(16.0) });
    assert_eq!(s.bounds, Point2::new(bits(f32::INFINITY), bits(f32::INFINITY)));
    assert_eq!(s.dest_shift, DestShift::Zero);
}

#[test]
fn dimensions_are_the_farthest_glyph_edges() {
    let mut t = Text::new("abc");
    let boxes = vec![rect(5, 7), None, rect(3, 9), rect(-4, -2)];
    assert_eq!(t.dimensions(&boxes), (5, 9));
    assert_eq!(t.cached_dimensions(), Some((5, 9)));
}

#[test]
fn dimensions_never_go_below_zero() {
    let mut t = Text::new("abc");
    assert_eq!(t.calculate_dimensions(&[rect(-5, -7), None]), (0, 0));
    let mut u = Text::new("abc");
    assert_eq!(u.dimensions(&[]), (0, 0));
}

#[test]
fn dimensions_are_cached_until_text_changes() {
    let mut t = Text::new("abc");
    assert_eq!(t.cached_dimensions(), None);
    assert_eq!(t.dimensions(&[rect(10, 20)]), (10, 20));
    assert_eq!(t.dimensions(&[rect(99, 99)]), (10, 20));
    assert_eq!(t.width(&[rect(1, 1)]), 10);
    assert_eq!(t.height(&[rect(1, 1)]), 20);
    // Asking for the contents keeps the measured dimensions.
    assert_eq!(t.contents(), "abc");
    assert_eq!(t.cached_dimensions(), Some((10, 20)));
    t.add("d");
    assert_eq!(t.cached_dimensions(), None);
    assert_eq!(t.width(&[rect(30, 40)]), 30);
    assert_eq!(t.height(&[rect(0, 0)]), 40);
    t.set_bounds(Point2::new(bits(50.0), bits(50.0)), Align::Left);
    assert_eq!(t.height(&[rect(3, 4)]), 4);
}

#[test]
fn measuring_keeps_contents() {
    let mut t = Text::new("ab");
    assert_eq!(t.contents(), "ab");
    t.calculate_dimensions(&[rect(1, 2)]);
    assert_eq!(t.contents(), "ab");
}

#[test]
fn blend_mode_round_trips() {
    let mut t = Text::new("a");
    assert_eq!(t.blend_mode(), None);
    t.set_blend_mode(Some(BlendMode::Multiply));
    assert_eq!(t.blend_mode(), Some(BlendMode::Multiply));
    let c = t.clone();
    assert_eq!(c.blend_mode(), Some(BlendMode::Multiply));
}

#[test]
fn text_from_built_fragment_keeps_it() {
    let black = Color { r: 0, g: 0, b: 0, a: bits(1.0) };
    let mut t = Text::new(TextFragment::new("a").color(black));
    t.add("b");
    let s = t.generate_varied_section(Some(red()));
    assert_eq!(s.text[0].text, "a");
    assert_eq!(s.text[0].color, black);
    assert_eq!(s.text[1].color, red());
    let inner = TextFragment::new("a").color(red()).scale(Scale::uniform(bits(8.0)));
    let f = TextFragment::from((inner, Font::default(), Scale::uniform(bits(20.0))));
    assert_eq!(f.text, "a");
    assert_eq!(f.color, Some(red()));
    assert_eq!(f.scale, Some(Scale::uniform(bits(20.0))));
}

#[test]
fn blend_mode_persists_across_changes() {
    let mut t = Text::new("a");
    t.set_blend_mode(Some(BlendMode::Add));
    t.add("b").set_font(Font::default(), Scale::uniform(bits(12.0)));
    t.fragments_mut()[0].text = String::from("c");
    assert_eq!(t.contents(), "cb");
    t.dimensions(&[rect(1, 1)]);
    assert_eq!(t.blend_mode(), Some(BlendMode::Add));
}
