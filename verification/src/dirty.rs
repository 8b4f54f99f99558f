use vstd::prelude::*;
use crate::fixed::Fixed;
use crate::scene::{Entity, Glyph, Rect, Transform};

verus! {

/// The raw value of the distance by which a label's shadow is moved to the
/// right and down, in the label's own coordinates.
pub const SHADOW_OFFSET_RAW: i64 = 3277;

/// The distance by which a label's shadow is moved to the right and down.
pub open spec fn spec_shadow_offset() -> Fixed {
    Fixed { raw: SHADOW_OFFSET_RAW }
}

/// The distance by which a label's shadow is moved to the right and down.
pub fn shadow_offset() -> (r: Fixed)
    ensures
        r == spec_shadow_offset(),
{
    Fixed { raw: SHADOW_OFFSET_RAW }
}

/// A vertical stretch of the surface, from `min_y` down to `max_y`. A span
/// whose `min_y` is greater than its `max_y` holds nothing.
#[derive(Clone, Copy, Debug, PartialEq, Eq, Structural)]
pub struct Span {
    pub min_y: Fixed,
    pub max_y: Fixed,
}

impl Span {
    /// The span that holds nothing, and is swallowed by every union.
    pub open spec fn spec_empty() -> Span {
        Span { min_y: Fixed::spec_max_value(), max_y: Fixed::spec_min_value() }
    }

    /// Whether the span holds nothing.
    pub open spec fn spec_is_empty(self) -> bool {
        self.min_y.raw > self.max_y.raw
    }

    /// Whether all of `other` lies in the span.
    pub open spec fn covers(self, other: Span) -> bool {
        other.spec_is_empty() || (self.min_y.raw <= other.min_y.raw && other.max_y.raw
            <= self.max_y.raw)
    }

    /// The smallest span that holds this one and the stretch from `low` to
    /// `high`.
    pub open spec fn spec_stretch(self, low: Fixed, high: Fixed) -> Span {
        Span { min_y: self.min_y.spec_min(low), max_y: self.max_y.spec_max(high) }
    }

    /// The smallest span that holds both.
    pub open spec fn spec_union(self, other: Span) -> Span {
        Span { min_y: self.min_y.spec_min(other.min_y), max_y: self.max_y.spec_max(other.max_y) }
    }

    /// The span that holds nothing.
    pub fn empty() -> (r: Span)
        ensures
            r == Span::spec_empty(),
    {
        Span { min_y: Fixed::max_value(), max_y: Fixed::min_value() }
    }

    /// Whether the span holds nothing.
    pub fn is_empty(&self) -> (r: bool)
        ensures
            r == self.spec_is_empty(),
    {
        self.min_y.raw > self.max_y.raw
    }

    /// The smallest span that holds this one and the stretch from `low` to
    /// `high`.
    pub fn stretch(&self, low: Fixed, high: Fixed) -> (r: Span)
        ensures
            r == self.spec_stretch(low, high),
    {
        Span { min_y: self.min_y.min(low), max_y: self.max_y.max(high) }
    }

    /// The smallest span that holds both.
    pub fn union(&self, other: &Span) -> (r: Span)
        ensures
            r == self.spec_union(*other),
    {
        Span { min_y: self.min_y.min(other.min_y), max_y: self.max_y.max(other.max_y) }
    }
}

/// The stretch that an outline with the given box takes up once transformed,
/// widened by `radius` on both sides of its top and of its bottom edge.
pub open spec fn outline_span(bounds: Rect, transform: Transform, radius: Fixed) -> Span {
    let top = transform.spec_transform_y(bounds.top);
    let bottom = transform.spec_transform_y(bounds.bottom);
    Span::spec_empty().spec_stretch(top.spec_minus(radius), top.spec_plus(radius)).spec_stretch(
        bottom.spec_minus(radius),
        bottom.spec_plus(radius),
    )
}

/// The transform of a glyph inside a label that is drawn with `transform`.
pub open spec fn spec_glyph_transform(transform: Transform, glyph: Glyph) -> Transform {
    transform.spec_pre_translate(glyph.x, glyph.y).spec_pre_scale(glyph.scale, glyph.scale)
}

/// The stretch that one glyph takes up: nothing without an outline.
pub open spec fn glyph_span(glyph: Glyph, transform: Transform) -> Span {
    match glyph.path {
        Some(path) => outline_span(
            path.bounds,
            spec_glyph_transform(transform, glyph),
            Fixed::spec_zero(),
        ),
        None => Span::spec_empty(),
    }
}

/// The stretch that the glyphs of a label take up together.
pub open spec fn glyphs_span(glyphs: Seq<Glyph>, transform: Transform) -> Span
    decreases glyphs.len(),
{
    if glyphs.len() == 0 {
        Span::spec_empty()
    } else {
        glyphs_span(glyphs.drop_last(), transform).spec_union(glyph_span(glyphs.last(), transform))
    }
}

/// The radius by which a stroke of the given width reaches beyond its
/// outline on the surface: half the width, scaled as the heights are.
pub open spec fn spec_stroke_radius(transform: Transform, width: Fixed) -> Fixed {
    transform.scale_y.spec_times(width).spec_half()
}

/// The stretch of the surface that an entity may touch.
pub open spec fn entity_span(entity: Entity) -> Span {
    match entity {
        Entity::FillPath(path, _, transform) => match path {
            Some(path) => outline_span(path.bounds, transform, Fixed::spec_zero()),
            None => Span::spec_empty(),
        },
        Entity::StrokePath(path, width, _, transform) => match path {
            Some(path) => outline_span(path.bounds, transform, spec_stroke_radius(transform, width)),
            None => Span::spec_empty(),
        },
        Entity::Image(_, transform) => Span::spec_empty().spec_stretch(
            transform.spec_transform_y(Fixed::spec_zero()),
            transform.spec_transform_y(Fixed::spec_zero()),
        ).spec_stretch(
            transform.spec_transform_y(Fixed::spec_one()),
            transform.spec_transform_y(Fixed::spec_one()),
        ),
        Entity::Label(label, _, shadow, transform) => {
            let glyphs = glyphs_span(label.glyphs@, transform);
            if shadow is Some {
                glyphs_span(
                    label.glyphs@,
                    transform.spec_pre_translate(spec_shadow_offset(), spec_shadow_offset()),
                ).spec_union(glyphs)
            } else {
                glyphs
            }
        },
    }
}

/// The stretch of the surface that the entities of a layer may touch.
pub open spec fn layer_span(layer: Seq<Entity>) -> Span
    decreases layer.len(),
{
    if layer.len() == 0 {
        Span::spec_empty()
    } else {
        layer_span(layer.drop_last()).spec_union(entity_span(layer.last()))
    }
}

/// The transform of a glyph inside a label that is drawn with `transform`.
pub fn glyph_transform(transform: &Transform, glyph: &Glyph) -> (r: Transform)
    ensures
        r == spec_glyph_transform(*transform, *glyph),
{
    transform.pre_translate(glyph.x, glyph.y).pre_scale(glyph.scale, glyph.scale)
}

/// The radius by which a stroke of the given width reaches beyond its outline.
pub fn stroke_radius(transform: &Transform, width: Fixed) -> (r: Fixed)
    ensures
        r == spec_stroke_radius(*transform, width),
{
    transform.scale_y.times(width).half()
}

fn outline_bounds(bounds: &Rect, transform: &Transform, radius: Fixed) -> (r: Span)
    ensures
        r == outline_span(*bounds, *transform, radius),
{
    let top = transform.transform_y(bounds.top);
    let bottom = transform.transform_y(bounds.bottom);
    Span::empty().stretch(top.minus(radius), top.plus(radius)).stretch(
        bottom.minus(radius),
        bottom.plus(radius),
    )
}

fn glyphs_bounds(glyphs: &Vec<Glyph>, transform: &Transform) -> (r: Span)
    ensures
        r == glyphs_span(glyphs@, *transform),
{
    let mut span = Span::empty();
    let mut i: usize = 0;
    while i < glyphs.len()
        invariant
            i <= glyphs@.len(),
            span == glyphs_span(glyphs@.take(i as int), *transform),
        decreases glyphs@.len() - i,
    {
        proof {
            assert(glyphs@.take(i + 1).drop_last() == glyphs@.take(i as int));
        }
        let glyph = &glyphs[i];
        if let Some(path) = &glyph.path {
            let inner = glyph_transform(transform, glyph);
            let piece = outline_bounds(&path.bounds, &inner, Fixed::zero());
            span = span.union(&piece);
        }
        i += 1;
    }
    proof {
        assert(glyphs@.take(glyphs@.len() as int) == glyphs@);
    }
    span
}

/// The stretch of the surface that an entity may touch.
pub fn entity_bounds(entity: &Entity) -> (r: Span)
    ensures
        r == entity_span(*entity),
{
    match entity {
        Entity::FillPath(path, _, transform) => match path {
            Some(path) => outline_bounds(&path.bounds, transform, Fixed::zero()),
            None => Span::empty(),
        },
        Entity::StrokePath(path, width, _, transform) => match path {
            Some(path) => outline_bounds(&path.bounds, transform, stroke_radius(transform, *width)),
            None => Span::empty(),
        },
        Entity::Image(_, transform) => {
            let top = transform.transform_y(Fixed::zero());
            let bottom = transform.transform_y(Fixed::one());
            Span::empty().stretch(top, top).stretch(bottom, bottom)
        },
        Entity::Label(label, _, shadow, transform) => {
            let glyphs = glyphs_bounds(&label.glyphs, transform);
            if shadow.is_some() {
                let moved = transform.pre_translate(shadow_offset(), shadow_offset());
                glyphs_bounds(&label.glyphs, &moved).union(&glyphs)
            } else {
                glyphs
            }
        },
    }
}

/// The stretch of the surface that the entities of a layer may touch: the
/// smallest span that holds the span of each.
pub fn calculate_bounds(layer: &[Entity]) -> (r: Span)
    ensures
        r == layer_span(layer@),
{
    let mut span = Span::empty();
    let mut i: usize = 0;
    while i < layer.len()
        invariant
            i <= layer@.len(),
            span == layer_span(layer@.take(i as int)),
        decreases layer@.len() - i,
    {
        proof {
            assert(layer@.take(i + 1).drop_last() == layer@.take(i as int));
        }
        let piece = entity_bounds(&layer[i]);
        span = span.union(&piece);
        i += 1;
    }
    proof {
        assert(layer@.take(layer@.len() as int) == layer@);
    }
    span
}

/// The union of spans does not depend on their order or grouping, a span
/// united with itself stays, and the empty span adds nothing.
pub proof fn lemma_union_laws(a: Span, b: Span, c: Span)
    ensures
        a.spec_union(b) == b.spec_union(a),
        a.spec_union(b).spec_union(c) == a.spec_union(b.spec_union(c)),
        a.spec_union(a) == a,
        a.spec_union(Span::spec_empty()) == a,
        a.spec_union(b).covers(a),
        a.spec_union(b).covers(b),
{
}

/// The span of a layer holds the span of each of its entities.
pub proof fn lemma_layer_span_covers(layer: Seq<Entity>, i: int)
    requires
        0 <= i < layer.len(),
    ensures
        layer_span(layer).covers(entity_span(layer[i])),
    decreases layer.len(),
{
    if i < layer.len() - 1 {
        lemma_layer_span_covers(layer.drop_last(), i);
    }
}

/// The row of a surface of the given height that is nearest to `row`, the
/// row just past the last one included.
pub open spec fn clamp_row(row: int, height: u32) -> u32 {
    if row < 0 {
        0
    } else if row > height {
        height
    } else {
        row as u32
    }
}

/// The rows of a surface that a span makes dirty, from the first up to, not
/// including, the second: the rows that the span touches, one more above and
/// two more below for what anti-aliasing spills, as far as the surface has
/// them. An empty span makes no row dirty.
pub open spec fn spec_dirty_rows(span: Span, height: u32) -> (u32, u32) {
    if span.spec_is_empty() {
        (0, 0)
    } else {
        (
            clamp_row(span.min_y.spec_minus(Fixed::spec_one()).spec_floor(), height),
            clamp_row(span.max_y.spec_plus(Fixed::spec_from_int(2)).spec_floor(), height),
        )
    }
}

fn clamped_row(row: i64, height: u32) -> (r: u32)
    ensures
        r == clamp_row(row as int, height),
{
    if row < 0 {
        0
    } else if row > height as i64 {
        height
    } else {
        row as u32
    }
}

/// The rows of a surface that a span makes dirty.
pub fn dirty_rows(span: &Span, height: u32) -> (r: (u32, u32))
    ensures
        r == spec_dirty_rows(*span, height),
        r.0 <= r.1 <= height,
{
    if span.is_empty() {
        (0, 0)
    } else {
        let first = clamped_row(span.min_y.minus(Fixed::one()).floor(), height);
        let end = clamped_row(span.max_y.plus(Fixed::from_int(2)).floor(), height);
        (first, end)
    }
}

/// A span makes at least the rows dirty that a span inside it does.
pub proof fn lemma_dirty_rows_monotone(inner: Span, outer: Span, height: u32)
    requires
        !inner.spec_is_empty(),
        outer.covers(inner),
    ensures
        spec_dirty_rows(outer, height).0 <= spec_dirty_rows(inner, height).0,
        spec_dirty_rows(inner, height).1 <= spec_dirty_rows(outer, height).1,
{
}

} // verus!
