//! Text made of fragments, with its layout and cached metrics.
use crate::graphics::types::{spec_white, white, BlendMode, Color, Point2, F32_INFINITY_BITS, F32_ONE_BITS, F32_SIXTEEN_BITS};
use vstd::prelude::*;
use vstd::std_specs::convert::{FromSpec, FromSpecImpl, IntoSpec};
use vstd::string::StringExecFns;

verus! {

/// Identifies a font loaded into the glyph renderer: the index it was added under.
#[derive(Clone, Copy, Debug, PartialEq, Eq, Structural)]
pub struct FontId(pub usize);

impl Default for FontId {
    /// The first font, which the renderer always has.
    fn default() -> (id: FontId)
        ensures
            id == FontId(0),
    {
        FontId(0)
    }
}

/// The horizontal and vertical size of glyphs; each is a single-precision number
/// held by its bit pattern.
#[derive(Clone, Copy, Debug, PartialEq, Eq, Structural)]
pub struct Scale {
    pub x: u32,
    pub y: u32,
}

impl Scale {
    /// The same scale in both directions.
    pub fn uniform(s: u32) -> (r: Scale)
        ensures
            r == (Scale { x: s, y: s }),
    {
        Scale { x: s, y: s }
    }
}

/// The scale fonts are drawn at when nothing else is given: `16.0` in both directions.
pub open spec fn default_font_scale() -> Scale {
    Scale { x: F32_SIXTEEN_BITS, y: F32_SIXTEEN_BITS }
}

/// Horizontal alignment of text within its bounds.
#[derive(Clone, Copy, Debug, PartialEq, Eq, Structural)]
pub enum Align {
    Left,
    Center,
    Right,
}

/// A handle referring to a loaded TrueType font.
#[derive(Clone, Copy, Debug, PartialEq, Eq, Structural)]
pub struct Font {
    font_id: FontId,
}

impl View for Font {
    type V = FontId;

    closed spec fn view(&self) -> FontId {
        self.font_id
    }
}

impl Default for Font {
    /// The built-in font, which is the first one the renderer holds.
    fn default() -> (f: Font)
        ensures
            f@ == FontId(0),
    {
        Font { font_id: FontId(0) }
    }
}

impl Font {
    /// The handle of the font that the renderer stored under `font_id`.
    pub fn from_font_id(font_id: FontId) -> (f: Font)
        ensures
            f@ == font_id,
    {
        Font { font_id }
    }

    /// The identifier this handle refers to.
    pub fn font_id(&self) -> (id: FontId)
        ensures
            id == self@,
    {
        self.font_id
    }
}

/// A piece of text with optional color, font and font scale information.
/// These options take precedence over any similar field/argument.
#[derive(Debug, PartialEq, Eq)]
pub struct TextFragment {
    /// Text string itself.
    pub text: String,
    /// Fragment's color, defaults to text's color.
    pub color: Option<Color>,
    /// Fragment's font, defaults to text's font.
    pub font: Option<Font>,
    /// Fragment's scale, defaults to text's scale.
    pub scale: Option<Scale>,
}

impl Clone for TextFragment {
    fn clone(&self) -> (r: TextFragment)
        ensures
            r == *self,
    {
        TextFragment { text: self.text.clone(), color: self.color, font: self.font, scale: self.scale }
    }
}

impl Default for TextFragment {
    /// An empty fragment with no options of its own.
    fn default() -> (r: TextFragment)
        ensures
            r.text@ == Seq::<char>::empty(),
            r.color is None,
            r.font is None,
            r.scale is None,
    {
        TextFragment { text: String::new(), color: None, font: None, scale: None }
    }
}

/// A fragment that holds `text` and no options of its own.
pub open spec fn plain_fragment(f: TextFragment, text: Seq<char>) -> bool {
    &&& f.text@ == text
    &&& f.color is None
    &&& f.font is None
    &&& f.scale is None
}

impl TextFragment {
    /// Creates a new fragment from `String` or `&str`.
    pub fn new<T: Into<Self>>(text: T) -> (r: Self)
        ensures
            call_ensures(<T as Into<Self>>::into, (text,), r),
            <T as IntoSpec<Self>>::obeys_into_spec() ==> r == <T as IntoSpec<Self>>::into_spec(text),
    {
        text.into()
    }

    /// Set fragment's color, overrides text's color.
    pub fn color(self, color: Color) -> (r: TextFragment)
        ensures
            r == (TextFragment { color: Some(color), ..self }),
    {
        let mut f = self;
        f.color = Some(color);
        f
    }

    /// Set fragment's font, overrides text's font.
    pub fn font(self, font: Font) -> (r: TextFragment)
        ensures
            r == (TextFragment { font: Some(font), ..self }),
    {
        let mut f = self;
        f.font = Some(font);
        f
    }

    /// Set fragment's scale, overrides text's scale.
    pub fn scale(self, scale: Scale) -> (r: TextFragment)
        ensures
            r == (TextFragment { scale: Some(scale), ..self }),
    {
        let mut f = self;
        f.scale = Some(scale);
        f
    }
}

/// Converts a character to a one-character string.
///
/// Calls `<char as ToString>::to_string`; the contract claims that the string
/// holds exactly the character, as the character's `Display` writes it.
#[verifier::external_body]
fn char_to_string(ch: char) -> (s: String)
    ensures
        s@ == seq![ch],
{
    ch.to_string()
}

/// Lends the elements of a vector as a mutable slice.
///
/// Calls `Vec::as_mut_slice`; the contract claims what vstd states of it (the slice
/// holds the vector's elements, and the vector ends up holding what the slice ends up
/// holding) and that it does not unwind, since it only reborrows the vector's buffer.
#[verifier::external_body]
fn vec_as_mut_slice<T>(v: &mut Vec<T>) -> (r: &mut [T])
    ensures
        r@ == old(v)@,
        final(r)@ == final(v)@,
    no_unwind
{
    v.as_mut_slice()
}

/// Converting a value into its own type gives it back unchanged.
///
/// Specifies core's blanket `impl<T> From<T> for T`, whose `from` returns its argument.
pub assume_specification<Q>[ <Q as core::convert::From<Q>>::from ](a: Q) -> (r: Q)
    ensures
        r == a,
;

impl<'a> FromSpecImpl<&'a str> for TextFragment {
    /// Two strings with the same characters need not be the same value, so only
    /// the characters of the result are promised (by `from` itself).
    open spec fn obeys_from_spec() -> bool {
        false
    }

    open spec fn from_spec(v: &'a str) -> TextFragment {
        choose|f: TextFragment| plain_fragment(f, v@)
    }
}

impl<'a> From<&'a str> for TextFragment {
    fn from(text: &'a str) -> (r: TextFragment)
        ensures
            plain_fragment(r, text@),
    {
        TextFragment { text: text.to_owned(), color: None, font: None, scale: None }
    }
}

impl FromSpecImpl<char> for TextFragment {
    /// Only the characters of the result are promised (by `from` itself).
    open spec fn obeys_from_spec() -> bool {
        false
    }

    open spec fn from_spec(v: char) -> TextFragment {
        choose|f: TextFragment| plain_fragment(f, seq![v])
    }
}

impl From<char> for TextFragment {
    fn from(ch: char) -> (r: TextFragment)
        ensures
            plain_fragment(r, seq![ch]),
    {
        TextFragment { text: char_to_string(ch), color: None, font: None, scale: None }
    }
}

impl FromSpecImpl<String> for TextFragment {
    open spec fn obeys_from_spec() -> bool {
        true
    }

    open spec fn from_spec(v: String) -> TextFragment {
        TextFragment { text: v, color: None, font: None, scale: None }
    }
}

impl From<String> for TextFragment {
    fn from(text: String) -> (r: TextFragment)
        ensures
            r.text == text,
            r.color is None,
            r.font is None,
            r.scale is None,
    {
        TextFragment { text, color: None, font: None, scale: None }
    }
}

impl<T: Into<TextFragment>> FromSpecImpl<(T, Font, Scale)> for TextFragment {
    /// What `T` converts to is up to `T`, so only the options are promised (by `from` itself).
    open spec fn obeys_from_spec() -> bool {
        false
    }

    open spec fn from_spec(v: (T, Font, Scale)) -> TextFragment {
        choose|f: TextFragment| f.font == Some(v.1) && f.scale == Some(v.2)
    }
}

impl<T: Into<TextFragment>> From<(T, Font, Scale)> for TextFragment {
    /// A fragment with its own font and scale.
    fn from(parts: (T, Font, Scale)) -> (r: TextFragment)
        ensures
            r.font == Some(parts.1),
            r.scale == Some(parts.2),
            exists|f: TextFragment| #[trigger]
                call_ensures(<T as Into<TextFragment>>::into, (parts.0,), f) && r.text == f.text
                    && r.color == f.color,
            <T as IntoSpec<TextFragment>>::obeys_into_spec() ==> ({
                let f = <T as IntoSpec<TextFragment>>::into_spec(parts.0);
                r.text == f.text && r.color == f.color
            }),
    {
        let (text, font, scale) = parts;
        let f: TextFragment = text.into();
        f.font(font).scale(scale)
    }
}


/// Cached font metrics that we can keep attached to a `Text`
/// so we don't have to keep recalculating them.
#[derive(Debug)]
struct CachedMetrics {
    string: Option<String>,
    width: Option<u32>,
    height: Option<u32>,
}

/// What a `Text` has cached: its contents and its measured width and height.
pub ghost struct MetricsView {
    pub string: Option<Seq<char>>,
    pub width: Option<u32>,
    pub height: Option<u32>,
}

/// Nothing cached.
pub open spec fn no_metrics() -> MetricsView {
    MetricsView { string: None, width: None, height: None }
}

impl View for CachedMetrics {
    type V = MetricsView;

    closed spec fn view(&self) -> MetricsView {
        MetricsView {
            string: match self.string {
                Some(s) => Some(s@),
                None => None,
            },
            width: self.width,
            height: self.height,
        }
    }
}

impl Default for CachedMetrics {
    fn default() -> (m: CachedMetrics)
        ensures
            m@ == no_metrics(),
    {
        CachedMetrics { string: None, width: None, height: None }
    }
}

/// Drawable text object.  Essentially a list of `TextFragment`'s and some metrics
/// information.
///
/// The layout is always the wrapping one; only its horizontal alignment varies.
#[derive(Debug)]
pub struct Text {
    fragments: Vec<TextFragment>,
    blend_mode: Option<BlendMode>,
    bounds: Point2,
    h_align: Align,
    font_id: FontId,
    font_scale: Scale,
    cached_metrics: CachedMetrics,
}

/// The abstract state of a `Text`.
pub ghost struct TextView {
    pub fragments: Seq<TextFragment>,
    pub blend_mode: Option<BlendMode>,
    pub bounds: Point2,
    pub h_align: Align,
    pub font_id: FontId,
    pub font_scale: Scale,
    pub metrics: MetricsView,
}

impl View for Text {
    type V = TextView;

    closed spec fn view(&self) -> TextView {
        TextView {
            fragments: self.fragments@,
            blend_mode: self.blend_mode,
            bounds: self.bounds,
            h_align: self.h_align,
            font_id: self.font_id,
            font_scale: self.font_scale,
            metrics: self.cached_metrics@,
        }
    }
}

/// A new text: no fragments, unbounded, left-aligned, the first font at the default
/// scale, and nothing cached.
pub open spec fn default_text() -> TextView {
    TextView {
        fragments: Seq::empty(),
        blend_mode: None,
        bounds: Point2 { x: F32_INFINITY_BITS, y: F32_INFINITY_BITS },
        h_align: Align::Left,
        font_id: FontId(0),
        font_scale: default_font_scale(),
        metrics: no_metrics(),
    }
}

/// The text of all fragments, one after the other.
pub open spec fn concat_texts(fragments: Seq<TextFragment>) -> Seq<char>
    decreases fragments.len(),
{
    if fragments.len() == 0 {
        Seq::empty()
    } else {
        concat_texts(fragments.drop_last()) + fragments.last().text@
    }
}

/// `v` after a fragment `f` has been appended: the metrics no longer hold.
pub open spec fn added(v: TextView, f: TextFragment) -> TextView {
    TextView { fragments: v.fragments.push(f), metrics: no_metrics(), ..v }
}

/// Whether bounds whose width is `x` leave the text unwrapped (`x` is `+inf`).
pub open spec fn unbounded_width(x: u32) -> bool {
    x == F32_INFINITY_BITS
}

/// `v` after its bounds were set to `bounds` with `alignment`: an unbounded text falls
/// back to the default (left-aligned) layout, since layouts make no sense without wrapping.
pub open spec fn bounded(v: TextView, bounds: Point2, alignment: Align) -> TextView {
    TextView {
        bounds,
        h_align: if unbounded_width(bounds.x) { Align::Left } else { alignment },
        metrics: no_metrics(),
        ..v
    }
}

/// `v` after its font and font scale were set.
pub open spec fn with_font(v: TextView, font_id: FontId, font_scale: Scale) -> TextView {
    TextView { font_id, font_scale, metrics: no_metrics(), ..v }
}

/// `v` after `contents` was asked for: the text of all fragments is cached.
pub open spec fn contents_cached(v: TextView) -> TextView {
    TextView { metrics: MetricsView { string: Some(concat_texts(v.fragments)), ..v.metrics }, ..v }
}

/// The cached string, if any, is the text of the fragments.
pub open spec fn cache_consistent(v: TextView) -> bool {
    v.metrics.string matches Some(s) ==> s == concat_texts(v.fragments)
}

impl Text {
    /// A cached string is always the text of the fragments as they are, and text
    /// without a wrap width is always left-aligned.
    #[verifier::type_invariant]
    spec fn cached_string_is_current(self) -> bool {
        &&& cache_consistent(self@)
        &&& self.bounds.x == F32_INFINITY_BITS ==> self.h_align == Align::Left
    }
}

impl Clone for Text {
    /// Clones do not share cached metrics: the clone starts with none.
    fn clone(&self) -> (t: Text)
        ensures
            t@ == (TextView { metrics: no_metrics(), ..self@ }),
    {
        proof {
            use_type_invariant(self);
        }
        let fragments = self.fragments.clone();
        assert(fragments@ =~= self.fragments@);
        Text {
            fragments,
            blend_mode: self.blend_mode,
            bounds: self.bounds,
            h_align: self.h_align,
            font_id: self.font_id,
            font_scale: self.font_scale,
            cached_metrics: CachedMetrics::default(),
        }
    }
}

impl Default for Text {
    fn default() -> (t: Text)
        ensures
            t@ == default_text(),
            t@.fragments.len() == 0,
            t@.blend_mode is None,
            t@.bounds == (Point2 { x: F32_INFINITY_BITS, y: F32_INFINITY_BITS }),
            t@.h_align == Align::Left,
            t@.font_id == FontId(0),
            t@.font_scale == (Scale { x: F32_SIXTEEN_BITS, y: F32_SIXTEEN_BITS }),
            t@.metrics.string is None,
            t@.metrics.width is None,
            t@.metrics.height is None,
    {
        Text {
            fragments: Vec::new(),
            blend_mode: None,
            bounds: Point2::new(F32_INFINITY_BITS, F32_INFINITY_BITS),
            h_align: Align::Left,
            font_id: FontId::default(),
            font_scale: Scale::uniform(F32_SIXTEEN_BITS),
            cached_metrics: CachedMetrics::default(),
        }
    }
}

/// One fragment's text as the glyph renderer draws it, with every option resolved.
pub struct SectionText {
    pub text: String,
    pub color: Color,
    pub font_id: FontId,
    pub scale: Scale,
}

/// How far right of the requested position the text's origin lies, so that
/// aligned text sits inside its bounds.
#[derive(Clone, Copy, Debug, PartialEq, Eq, Structural)]
pub enum DestShift {
    /// At the requested position.
    Zero,
    /// Half the width of the bounds to the right.
    HalfWidth,
    /// The width of the bounds to the right.
    FullWidth,
}

/// A text laid out for the glyph renderer: its sections, bounds, the horizontal
/// alignment of the wrapping layout, and where its origin lies.
pub struct SectionLayout {
    pub text: Vec<SectionText>,
    pub bounds: Point2,
    pub h_align: Align,
    pub dest_shift: DestShift,
}

/// The colour a fragment is drawn in: its own, else the one given, else white.
pub open spec fn resolved_color(f: TextFragment, color: Option<Color>) -> Color {
    match f.color {
        Some(c) => c,
        None => match color {
            Some(c) => c,
            None => spec_white(),
        },
    }
}

/// The font a fragment is drawn in: its own, else the text's.
pub open spec fn resolved_font(f: TextFragment, v: TextView) -> FontId {
    match f.font {
        Some(font) => font@,
        None => v.font_id,
    }
}

/// The scale a fragment is drawn at: its own, else the text's.
pub open spec fn resolved_scale(f: TextFragment, v: TextView) -> Scale {
    match f.scale {
        Some(scale) => scale,
        None => v.font_scale,
    }
}

/// `s` is fragment `f` of text `v` drawn with the default colour `color`.
pub open spec fn section_text_of(s: SectionText, f: TextFragment, v: TextView, color: Option<Color>) -> bool {
    &&& s.text@ == f.text@
    &&& s.color == resolved_color(f, color)
    &&& s.font_id == resolved_font(f, v)
    &&& s.scale == resolved_scale(f, v)
}

/// Where the origin of text `v` lies: bounded centred text is shifted by half the
/// bounds' width, bounded right-aligned text by all of it.
pub open spec fn dest_shift_of(v: TextView) -> DestShift {
    if unbounded_width(v.bounds.x) {
        DestShift::Zero
    } else {
        match v.h_align {
            Align::Center => DestShift::HalfWidth,
            Align::Right => DestShift::FullWidth,
            Align::Left => DestShift::Zero,
        }
    }
}

/// `r` lays out text `v` with the default colour `color`.
pub open spec fn section_layout_of(r: SectionLayout, v: TextView, color: Option<Color>) -> bool {
    &&& r.text@.len() == v.fragments.len()
    &&& forall|j: int|
        0 <= j < v.fragments.len() ==> #[trigger] section_text_of(r.text@[j], v.fragments[j], v, color)
    &&& r.bounds == v.bounds
    &&& r.h_align == v.h_align
    &&& r.dest_shift == dest_shift_of(v)
}

/// The pixel bounding box of a laid-out glyph, in whole pixels.
#[derive(Clone, Copy, Debug, PartialEq, Eq, Structural)]
pub struct PixelRect {
    pub min_x: i32,
    pub min_y: i32,
    pub max_x: i32,
    pub max_y: i32,
}

/// The rightmost pixel edge reached by any glyph, and never less than 0.
pub open spec fn extent_x(boxes: Seq<Option<PixelRect>>) -> int
    decreases boxes.len(),
{
    if boxes.len() == 0 {
        0
    } else {
        let m = extent_x(boxes.drop_last());
        match boxes.last() {
            Some(rect) => if rect.max_x > m { rect.max_x as int } else { m },
            None => m,
        }
    }
}

/// The lowest pixel edge reached by any glyph, and never less than 0.
pub open spec fn extent_y(boxes: Seq<Option<PixelRect>>) -> int
    decreases boxes.len(),
{
    if boxes.len() == 0 {
        0
    } else {
        let m = extent_y(boxes.drop_last());
        match boxes.last() {
            Some(rect) => if rect.max_y > m { rect.max_y as int } else { m },
            None => m,
        }
    }
}

/// The width and height that glyphs with pixel bounding boxes `boxes` cover.
pub open spec fn extent(boxes: Seq<Option<PixelRect>>) -> (u32, u32) {
    (extent_x(boxes) as u32, extent_y(boxes) as u32)
}

/// Both extents lie between 0 and `i32::MAX`.
pub proof fn lemma_extent_nonnegative(boxes: Seq<Option<PixelRect>>)
    ensures
        0 <= extent_x(boxes) <= i32::MAX,
        0 <= extent_y(boxes) <= i32::MAX,
    decreases boxes.len(),
{
    if boxes.len() > 0 {
        lemma_extent_nonnegative(boxes.drop_last());
    }
}

/// `v` after width and height `dims` were measured and cached.
pub open spec fn measured(v: TextView, dims: (u32, u32)) -> TextView {
    TextView { metrics: MetricsView { width: Some(dims.0), height: Some(dims.1), ..v.metrics }, ..v }
}

/// The cached width and height of `v`, when both are cached.
pub open spec fn cached_dimensions_of(v: TextView) -> Option<(u32, u32)> {
    match (v.metrics.width, v.metrics.height) {
        (Some(w), Some(h)) => Some((w, h)),
        _ => None,
    }
}

/// What `dimensions` returns for `v` when its glyphs have pixel bounding boxes `boxes`.
pub open spec fn dimensions_of(v: TextView, boxes: Seq<Option<PixelRect>>) -> (u32, u32) {
    match cached_dimensions_of(v) {
        Some(dims) => dims,
        None => extent(boxes),
    }
}

/// `v` after `dimensions` was asked for with glyph boxes `boxes`.
pub open spec fn dimensions_cached(v: TextView, boxes: Seq<Option<PixelRect>>) -> TextView {
    match cached_dimensions_of(v) {
        Some(_) => v,
        None => measured(v, extent(boxes)),
    }
}

impl Text {
    /// Creates a `Text` from a `TextFragment`.
    pub fn new<F: Into<TextFragment>>(fragment: F) -> (t: Text)
        ensures
            t@.fragments.len() == 1,
            t@ == (TextView { fragments: t@.fragments, ..default_text() }),
            call_ensures(<F as Into<TextFragment>>::into, (fragment,), t@.fragments[0]),
            <F as IntoSpec<TextFragment>>::obeys_into_spec() ==> t@.fragments[0]
                == <F as IntoSpec<TextFragment>>::into_spec(fragment),
    {
        let mut text = Text::default();
        let _ = text.add(fragment);
        text
    }

    /// Appends a `TextFragment` to the `Text`.
    pub fn add<F: Into<TextFragment>>(&mut self, fragment: F) -> (r: &mut Text)
        ensures
            r@ == added(old(self)@, r@.fragments.last()),
            call_ensures(<F as Into<TextFragment>>::into, (fragment,), r@.fragments.last()),
            <F as IntoSpec<TextFragment>>::obeys_into_spec() ==> r@.fragments.last()
                == <F as IntoSpec<TextFragment>>::into_spec(fragment),
            *final(self) == *final(r),
    {
        self.add_fragment(fragment.into())
    }

    /// Appends a `TextFragment` that is already converted.
    pub fn add_fragment(&mut self, fragment: TextFragment) -> (r: &mut Text)
        ensures
            r@ == added(old(self)@, fragment),
            *final(self) == *final(r),
    {
        proof {
            use_type_invariant(&*self);
        }
        self.invalidate_cached_metrics();
        let mut fragments: Vec<TextFragment> = Vec::new();
        std::mem::swap(&mut fragments, &mut self.fragments);
        fragments.push(fragment);
        self.fragments = fragments;
        self
    }

    /// Returns a read-only slice of all `TextFragment`'s.
    pub fn fragments(&self) -> (r: &[TextFragment])
        ensures
            r@ == self@.fragments,
    {
        self.fragments.as_slice()
    }

    /// Returns a mutable slice with all fragments.
    ///
    /// The cached metrics are dropped first, since the fragments may change through it.
    pub fn fragments_mut(&mut self) -> (r: &mut [TextFragment])
        ensures
            r@ == old(self)@.fragments,
            final(self)@ == (TextView { fragments: final(r)@, metrics: no_metrics(), ..old(self)@ }),
    {
        proof {
            use_type_invariant(&*self);
        }
        self.invalidate_cached_metrics();
        vec_as_mut_slice(&mut self.fragments)
    }

    /// Specifies rectangular dimensions to try and fit contents inside of,
    /// by wrapping, and alignment within the bounds.
    pub fn set_bounds(&mut self, bounds: Point2, alignment: Align) -> (r: &mut Text)
        ensures
            r@ == bounded(old(self)@, bounds, alignment),
            r@.bounds == bounds,
            bounds.x == F32_INFINITY_BITS ==> r@.h_align == Align::Left,
            bounds.x != F32_INFINITY_BITS ==> r@.h_align == alignment,
            r@.fragments == old(self)@.fragments,
            *final(self) == *final(r),
    {
        proof {
            use_type_invariant(&*self);
        }
        // Layouts don't make any sense if we don't wrap text at all, so the text
        // stays left-aligned until it has a wrap width.
        self.h_align = Align::Left;
        self.bounds = bounds;
        if self.bounds.x != F32_INFINITY_BITS {
            self.h_align = alignment;
        }
        self.invalidate_cached_metrics();
        self
    }

    /// Specifies text's font and font scale; used for fragments that don't have their own.
    pub fn set_font(&mut self, font: Font, font_scale: Scale) -> (r: &mut Text)
        ensures
            r@ == with_font(old(self)@, font@, font_scale),
            r@.font_id == font@,
            r@.font_scale == font_scale,
            r@.fragments == old(self)@.fragments,
            r@.bounds == old(self)@.bounds,
            r@.h_align == old(self)@.h_align,
            *final(self) == *final(r),
    {
        proof {
            use_type_invariant(&*self);
        }
        self.font_id = font.font_id;
        self.font_scale = font_scale;
        self.invalidate_cached_metrics();
        self
    }

    /// Returns the string that the text represents, and caches it.
    pub fn contents(&mut self) -> (s: String)
        ensures
            s@ == concat_texts(old(self)@.fragments),
            final(self)@ == contents_cached(old(self)@),
    {
        proof {
            use_type_invariant(&*self);
        }
        match &self.cached_metrics.string {
            Some(string) => {
                return string.clone();
            },
            None => {},
        }
        let mut string_accm = String::new();
        let n = self.fragments.len();
        let mut i: usize = 0;
        while i < n
            invariant
                n == self.fragments@.len(),
                i <= n,
                string_accm@ == concat_texts(self.fragments@.take(i as int)),
            decreases n - i,
        {
            assert(self.fragments@.take(i + 1).drop_last() =~= self.fragments@.take(i as int));
            string_accm.append(self.fragments[i].text.as_str());
            i += 1;
        }
        assert(self.fragments@.take(n as int) =~= self.fragments@);
        self.cached_metrics.string = Some(string_accm.clone());
        string_accm
    }

    /// The plain-value description of the text that the glyph renderer queues: one
    /// section per fragment with the fragment's options, or else `color` and the text's
    /// own font and scale.
    pub fn generate_varied_section(&self, color: Option<Color>) -> (r: SectionLayout)
        ensures
            section_layout_of(r, self@, color),
            r.text@.len() == self@.fragments.len(),
            forall|j: int| 0 <= j < self@.fragments.len() ==> {
                let f = #[trigger] self@.fragments[j];
                let s = r.text@[j];
                &&& s.text@ == f.text@
                &&& f.color matches Some(c) ==> s.color == c
                &&& (f.color is None && color is Some) ==> s.color == color->0
                &&& (f.color is None && color is None) ==> s.color == (Color {
                    r: F32_ONE_BITS,
                    g: F32_ONE_BITS,
                    b: F32_ONE_BITS,
                    a: F32_ONE_BITS,
                })
                &&& f.font matches Some(font) ==> s.font_id == font@
                &&& f.font is None ==> s.font_id == self@.font_id
                &&& f.scale matches Some(sc) ==> s.scale == sc
                &&& f.scale is None ==> s.scale == self@.font_scale
            },
            r.bounds == self@.bounds,
            r.h_align == self@.h_align,
            r.bounds.x == F32_INFINITY_BITS ==> r.h_align == Align::Left && r.dest_shift == DestShift::Zero,
            r.bounds.x != F32_INFINITY_BITS ==> r.dest_shift == (match r.h_align {
                Align::Left => DestShift::Zero,
                Align::Center => DestShift::HalfWidth,
                Align::Right => DestShift::FullWidth,
            }),
    {
        proof {
            use_type_invariant(self);
        }
        let mut sections: Vec<SectionText> = Vec::new();
        let n = self.fragments.len();
        let mut i: usize = 0;
        while i < n
            invariant
                n == self.fragments@.len(),
                i <= n,
                sections@.len() == i,
                forall|j: int|
                    0 <= j < i ==> #[trigger] section_text_of(
                        sections@[j],
                        self@.fragments[j],
                        self@,
                        color,
                    ),
            decreases n - i,
        {
            let fragment = &self.fragments[i];
            let c = match fragment.color {
                Some(c) => c,
                None => match color {
                    Some(c) => c,
                    None => white(),
                },
            };
            let font_id = match fragment.font {
                Some(font) => font.font_id,
                None => self.font_id,
            };
            let scale = match fragment.scale {
                Some(scale) => scale,
                None => self.font_scale,
            };
            sections.push(SectionText { text: fragment.text.clone(), color: c, font_id, scale });
            i += 1;
        }
        // This positions text within bounds with the destination being to the left, always.
        let dest_shift = if self.bounds.x != F32_INFINITY_BITS {
            match self.h_align {
                Align::Center => DestShift::HalfWidth,
                Align::Right => DestShift::FullWidth,
                Align::Left => DestShift::Zero,
            }
        } else {
            DestShift::Zero
        };
        let r = SectionLayout { text: sections, bounds: self.bounds, h_align: self.h_align, dest_shift };
        assert forall|j: int| 0 <= j < self@.fragments.len() implies section_text_of(
            r.text@[j],
            #[trigger] self@.fragments[j],
            self@,
            color,
        ) by {}
        r
    }

    /// Calculates, caches, and returns width and height of formatted and wrapped text,
    /// given the pixel bounding boxes of its laid-out glyphs (`None` for a glyph that
    /// covers no pixel).
    pub fn calculate_dimensions(&mut self, glyph_boxes: &[Option<PixelRect>]) -> (r: (u32, u32))
        ensures
            r == extent(glyph_boxes@),
            forall|i: int|
                0 <= i < glyph_boxes@.len() && (#[trigger] glyph_boxes@[i]) is Some ==> glyph_boxes@[i]->0.max_x <= r.0
                    && glyph_boxes@[i]->0.max_y <= r.1,
            r.0 == 0 || exists|i: int|
                0 <= i < glyph_boxes@.len() && (#[trigger] glyph_boxes@[i]) is Some && glyph_boxes@[i]->0.max_x == r.0,
            r.1 == 0 || exists|i: int|
                0 <= i < glyph_boxes@.len() && (#[trigger] glyph_boxes@[i]) is Some && glyph_boxes@[i]->0.max_y == r.1,
            final(self)@ == measured(old(self)@, r),
            final(self)@.metrics.width == Some(r.0),
            final(self)@.metrics.height == Some(r.1),
    {
        proof {
            use_type_invariant(&*self);
        }
        let mut max_width: i32 = 0;
        let mut max_height: i32 = 0;
        let n = glyph_boxes.len();
        let mut i: usize = 0;
        while i < n
            invariant
                n == glyph_boxes@.len(),
                i <= n,
                max_width == extent_x(glyph_boxes@.take(i as int)),
                max_height == extent_y(glyph_boxes@.take(i as int)),
            decreases n - i,
        {
            assert(glyph_boxes@.take(i + 1).drop_last() =~= glyph_boxes@.take(i as int));
            match glyph_boxes[i] {
                Some(rect) => {
                    if rect.max_x > max_width {
                        max_width = rect.max_x;
                    }
                    if rect.max_y > max_height {
                        max_height = rect.max_y;
                    }
                },
                None => {},
            }
            i += 1;
        }
        assert(glyph_boxes@.take(n as int) =~= glyph_boxes@);
        proof {
            lemma_extent_nonnegative(glyph_boxes@);
            law_extent_is_max(glyph_boxes@);
        }
        let width = max_width as u32;
        let height = max_height as u32;
        self.cached_metrics.width = Some(width);
        self.cached_metrics.height = Some(height);
        (width, height)
    }

    /// The cached width and height, when both are cached.
    pub fn cached_dimensions(&self) -> (r: Option<(u32, u32)>)
        ensures
            r == cached_dimensions_of(self@),
    {
        match (self.cached_metrics.width, self.cached_metrics.height) {
            (Some(width), Some(height)) => Some((width, height)),
            _ => None,
        }
    }

    /// Returns the width and height of the formatted and wrapped text: the cached ones,
    /// else those measured from `glyph_boxes`, which are then cached.
    pub fn dimensions(&mut self, glyph_boxes: &[Option<PixelRect>]) -> (r: (u32, u32))
        ensures
            r == dimensions_of(old(self)@, glyph_boxes@),
            final(self)@ == dimensions_cached(old(self)@, glyph_boxes@),
            (old(self)@.metrics.width is Some && old(self)@.metrics.height is Some) ==> r == (
                old(self)@.metrics.width->0,
                old(self)@.metrics.height->0,
            ),
            !(old(self)@.metrics.width is Some && old(self)@.metrics.height is Some) ==> {
                &&& forall|i: int|
                    0 <= i < glyph_boxes@.len() && (#[trigger] glyph_boxes@[i]) is Some
                        ==> glyph_boxes@[i]->0.max_x <= r.0 && glyph_boxes@[i]->0.max_y <= r.1
                &&& (r.0 == 0 || exists|i: int|
                    0 <= i < glyph_boxes@.len() && (#[trigger] glyph_boxes@[i]) is Some && glyph_boxes@[i]->0.max_x == r.0)
                &&& (r.1 == 0 || exists|i: int|
                    0 <= i < glyph_boxes@.len() && (#[trigger] glyph_boxes@[i]) is Some && glyph_boxes@[i]->0.max_y == r.1)
            },
    {
        match self.cached_dimensions() {
            Some(dims) => dims,
            None => self.calculate_dimensions(glyph_boxes),
        }
    }

    /// Returns the width of formatted and wrapped text, in screen coordinates.
    pub fn width(&mut self, glyph_boxes: &[Option<PixelRect>]) -> (r: u32)
        ensures
            r == dimensions_of(old(self)@, glyph_boxes@).0,
            final(self)@ == dimensions_cached(old(self)@, glyph_boxes@),
    {
        self.dimensions(glyph_boxes).0
    }

    /// Returns the height of formatted and wrapped text, in screen coordinates.
    pub fn height(&mut self, glyph_boxes: &[Option<PixelRect>]) -> (r: u32)
        ensures
            r == dimensions_of(old(self)@, glyph_boxes@).1,
            final(self)@ == dimensions_cached(old(self)@, glyph_boxes@),
    {
        self.dimensions(glyph_boxes).1
    }

    /// Sets how the text is blended when drawn.
    pub fn set_blend_mode(&mut self, mode: Option<BlendMode>)
        ensures
            final(self)@ == (TextView { blend_mode: mode, ..old(self)@ }),
    {
        proof {
            use_type_invariant(&*self);
        }
        self.blend_mode = mode;
    }

    /// How the text is blended when drawn.
    pub fn blend_mode(&self) -> (r: Option<BlendMode>)
        ensures
            r == self@.blend_mode,
    {
        self.blend_mode
    }

    /// Clears every cached metric.
    fn invalidate_cached_metrics(&mut self)
        ensures
            final(self)@ == (TextView { metrics: no_metrics(), ..old(self)@ }),
    {
        proof {
            use_type_invariant(&*self);
        }
        self.cached_metrics = CachedMetrics::default();
    }
}


/// Appending a fragment appends its text to the text of all fragments.
pub proof fn law_concat_push(fragments: Seq<TextFragment>, f: TextFragment)
    ensures
        concat_texts(fragments.push(f)) == concat_texts(fragments) + f.text@,
{
    assert(fragments.push(f).drop_last() =~= fragments);
}

/// A new text's cache is consistent.
pub proof fn law_default_consistent()
    ensures
        cache_consistent(default_text()),
{
}

/// Every operation keeps the cached string equal to the text of the fragments:
/// adding fragments, setting bounds, font or blend mode, lending the fragments out
/// (which drops the cache), asking for the contents and measuring the text.
pub proof fn law_operations_keep_cache_consistent(
    v: TextView,
    f: TextFragment,
    edited: Seq<TextFragment>,
    bounds: Point2,
    alignment: Align,
    font_id: FontId,
    font_scale: Scale,
    mode: Option<BlendMode>,
    boxes: Seq<Option<PixelRect>>,
)
    requires
        cache_consistent(v),
    ensures
        cache_consistent(added(v, f)),
        cache_consistent(TextView { fragments: edited, metrics: no_metrics(), ..v }),
        cache_consistent(bounded(v, bounds, alignment)),
        cache_consistent(with_font(v, font_id, font_scale)),
        cache_consistent(TextView { blend_mode: mode, ..v }),
        cache_consistent(TextView { metrics: no_metrics(), ..v }),
        cache_consistent(contents_cached(v)),
        cache_consistent(dimensions_cached(v, boxes)),
{
}

/// Adding a fragment appends the fragment's text to the contents.
pub proof fn law_add_appends_contents(v: TextView, f: TextFragment)
    ensures
        concat_texts(added(v, f).fragments) == concat_texts(v.fragments) + f.text@,
{
    law_concat_push(v.fragments, f);
}

/// A clone starts with no cached metrics, has the same contents as its original,
/// and its dimensions are measured afresh.
pub proof fn law_clone_is_fresh(v: TextView, boxes: Seq<Option<PixelRect>>)
    ensures
        cache_consistent(TextView { metrics: no_metrics(), ..v }),
        concat_texts(TextView { metrics: no_metrics(), ..v }.fragments) == concat_texts(v.fragments),
        dimensions_of(TextView { metrics: no_metrics(), ..v }, boxes) == extent(boxes),
{
}

/// Asking for the contents changes nothing but the cache: asking again gives the same
/// string and changes nothing more.
pub proof fn law_contents_stable(v: TextView)
    ensures
        contents_cached(v).fragments == v.fragments,
        contents_cached(contents_cached(v)) == contents_cached(v),
{
}

/// Once measured, a text keeps its dimensions, whatever glyph boxes are offered later,
/// and measuring again changes nothing; measuring leaves the contents alone.
pub proof fn law_dimensions_stable(
    v: TextView,
    boxes: Seq<Option<PixelRect>>,
    later: Seq<Option<PixelRect>>,
)
    ensures
        dimensions_of(dimensions_cached(v, boxes), later) == dimensions_of(v, boxes),
        dimensions_cached(dimensions_cached(v, boxes), later) == dimensions_cached(v, boxes),
        dimensions_cached(v, boxes).fragments == v.fragments,
{
}

/// Adding a fragment, editing the fragments, setting the bounds or setting the font
/// drops the cached dimensions: they are measured again from the glyphs as they now are.
pub proof fn law_changes_remeasure(
    v: TextView,
    f: TextFragment,
    edited: Seq<TextFragment>,
    bounds: Point2,
    alignment: Align,
    font_id: FontId,
    font_scale: Scale,
    boxes: Seq<Option<PixelRect>>,
)
    ensures
        dimensions_of(added(v, f), boxes) == extent(boxes),
        dimensions_of(TextView { fragments: edited, metrics: no_metrics(), ..v }, boxes) == extent(boxes),
        dimensions_of(bounded(v, bounds, alignment), boxes) == extent(boxes),
        dimensions_of(with_font(v, font_id, font_scale), boxes) == extent(boxes),
{
}

/// Text without a wrap width keeps the default layout: it is left-aligned and drawn
/// at the requested position, whatever alignment was asked for.
pub proof fn law_unbounded_is_unaligned(v: TextView, bounds: Point2, alignment: Align)
    requires
        unbounded_width(bounds.x),
    ensures
        bounded(v, bounds, alignment).h_align == Align::Left,
        dest_shift_of(bounded(v, bounds, alignment)) == DestShift::Zero,
{
}

/// Text with a wrap width keeps the alignment asked for.
pub proof fn law_bounded_keeps_alignment(v: TextView, bounds: Point2, alignment: Align)
    requires
        !unbounded_width(bounds.x),
    ensures
        bounded(v, bounds, alignment).h_align == alignment,
        dest_shift_of(bounded(v, bounds, alignment)) == (match alignment {
            Align::Left => DestShift::Zero,
            Align::Center => DestShift::HalfWidth,
            Align::Right => DestShift::FullWidth,
        }),
{
}

/// The dimensions of glyphs never go below zero, and a glyph box only ever widens them.
pub proof fn law_extent_monotonic(boxes: Seq<Option<PixelRect>>, b: Option<PixelRect>)
    ensures
        extent_x(boxes) >= 0,
        extent_y(boxes) >= 0,
        extent_x(boxes.push(b)) >= extent_x(boxes),
        extent_y(boxes.push(b)) >= extent_y(boxes),
        b matches Some(rect) ==> extent_x(boxes.push(b)) >= rect.max_x && extent_y(boxes.push(b)) >= rect.max_y,
{
    lemma_extent_nonnegative(boxes);
    assert(boxes.push(b).drop_last() =~= boxes);
}


/// The width a text's glyphs cover is the rightmost edge of any glyph box, or 0 when
/// no box reaches right of 0; likewise the height with the lowest edge.
pub proof fn law_extent_is_max(boxes: Seq<Option<PixelRect>>)
    ensures
        forall|i: int|
            0 <= i < boxes.len() && (#[trigger] boxes[i]) is Some ==> boxes[i]->0.max_x <= extent_x(boxes)
                && boxes[i]->0.max_y <= extent_y(boxes),
        extent_x(boxes) == 0 || exists|i: int|
            0 <= i < boxes.len() && (#[trigger] boxes[i]) is Some && boxes[i]->0.max_x == extent_x(boxes),
        extent_y(boxes) == 0 || exists|i: int|
            0 <= i < boxes.len() && (#[trigger] boxes[i]) is Some && boxes[i]->0.max_y == extent_y(boxes),
    decreases boxes.len(),
{
    if boxes.len() > 0 {
        let init = boxes.drop_last();
        law_extent_is_max(init);
        assert forall|i: int| 0 <= i < init.len() implies #[trigger] boxes[i] == init[i] by {}
        if extent_x(init) != 0 && extent_x(boxes) == extent_x(init) {
            let i = choose|i: int| 0 <= i < init.len() && (#[trigger] init[i]) is Some && init[i]->0.max_x == extent_x(init);
            assert(boxes[i] == init[i]);
        }
        if extent_y(init) != 0 && extent_y(boxes) == extent_y(init) {
            let i = choose|i: int| 0 <= i < init.len() && (#[trigger] init[i]) is Some && init[i]->0.max_y == extent_y(init);
            assert(boxes[i] == init[i]);
        }
    }
}


/// The blend mode stays as it was last set: adding fragments, editing them, setting
/// bounds or font, asking for the contents, measuring and cloning leave it alone.
pub proof fn law_blend_mode_persists(
    v: TextView,
    mode: Option<BlendMode>,
    f: TextFragment,
    edited: Seq<TextFragment>,
    bounds: Point2,
    alignment: Align,
    font_id: FontId,
    font_scale: Scale,
    boxes: Seq<Option<PixelRect>>,
)
    ensures
        (TextView { blend_mode: mode, ..v }).blend_mode == mode,
        added(v, f).blend_mode == v.blend_mode,
        (TextView { fragments: edited, metrics: no_metrics(), ..v }).blend_mode == v.blend_mode,
        bounded(v, bounds, alignment).blend_mode == v.blend_mode,
        with_font(v, font_id, font_scale).blend_mode == v.blend_mode,
        contents_cached(v).blend_mode == v.blend_mode,
        dimensions_cached(v, boxes).blend_mode == v.blend_mode,
        (TextView { metrics: no_metrics(), ..v }).blend_mode == v.blend_mode,
{
}


/// The dimensions measured from glyph boxes are the farthest right and bottom edges
/// any glyph reaches, never less than 0: no glyph reaches past them, and each is 0 or
/// reached by some glyph.
pub proof fn law_extent_is_farthest_edge(boxes: Seq<Option<PixelRect>>)
    ensures
        forall|i: int|
            0 <= i < boxes.len() && (#[trigger] boxes[i]) is Some ==> boxes[i]->0.max_x <= extent(boxes).0
                && boxes[i]->0.max_y <= extent(boxes).1,
        extent(boxes).0 == 0 || exists|i: int|
            0 <= i < boxes.len() && (#[trigger] boxes[i]) is Some && boxes[i]->0.max_x == extent(boxes).0,
        extent(boxes).1 == 0 || exists|i: int|
            0 <= i < boxes.len() && (#[trigger] boxes[i]) is Some && boxes[i]->0.max_y == extent(boxes).1,
{
    lemma_extent_nonnegative(boxes);
    law_extent_is_max(boxes);
}

/// A fragment's own options take precedence: its colour over the colour given and
/// white, its font and scale over the text's.
pub proof fn law_fragment_options_take_precedence(f: TextFragment, v: TextView, color: Option<Color>)
    ensures
        f.color matches Some(c) ==> resolved_color(f, color) == c,
        (f.color is None && color is Some) ==> resolved_color(f, color) == color->0,
        (f.color is None && color is None) ==> resolved_color(f, color) == (Color {
            r: F32_ONE_BITS,
            g: F32_ONE_BITS,
            b: F32_ONE_BITS,
            a: F32_ONE_BITS,
        }),
        f.font matches Some(font) ==> resolved_font(f, v) == font@,
        f.font is None ==> resolved_font(f, v) == v.font_id,
        f.scale matches Some(sc) ==> resolved_scale(f, v) == sc,
        f.scale is None ==> resolved_scale(f, v) == v.font_scale,
{
}

/// A fragment made from a string holds exactly that string and has no options of its own.
pub proof fn law_string_fragment_is_plain(text: String)
    ensures
        <TextFragment as FromSpec<String>>::obeys_from_spec(),
        <TextFragment as FromSpec<String>>::from_spec(text).text == text,
        <TextFragment as FromSpec<String>>::from_spec(text).color is None,
        <TextFragment as FromSpec<String>>::from_spec(text).font is None,
        <TextFragment as FromSpec<String>>::from_spec(text).scale is None,
{
}

/// A new text is empty, unbounded and left-aligned, in the first font at scale 16,
/// with nothing cached.
pub proof fn law_new_text_is_left_aligned()
    ensures
        default_text().fragments.len() == 0,
        default_text().blend_mode is None,
        default_text().bounds == (Point2 { x: F32_INFINITY_BITS, y: F32_INFINITY_BITS }),
        default_text().h_align == Align::Left,
        dest_shift_of(default_text()) == DestShift::Zero,
        default_text().font_id == FontId(0),
        default_text().font_scale == (Scale { x: F32_SIXTEEN_BITS, y: F32_SIXTEEN_BITS }),
        default_text().metrics.string is None,
        default_text().metrics.width is None,
        default_text().metrics.height is None,
{
}

/// Setting the font takes both the font and the scale as given, whatever they were
/// before, and changes nothing else but the cache.
pub proof fn law_set_font_takes_font_and_scale(v: TextView, font_id: FontId, font_scale: Scale)
    ensures
        with_font(v, font_id, font_scale).font_id == font_id,
        with_font(v, font_id, font_scale).font_scale == font_scale,
        with_font(v, font_id, font_scale).fragments == v.fragments,
        with_font(v, font_id, font_scale).bounds == v.bounds,
        with_font(v, font_id, font_scale).h_align == v.h_align,
        with_font(v, font_id, font_scale).blend_mode == v.blend_mode,
{
}

} // verus!
