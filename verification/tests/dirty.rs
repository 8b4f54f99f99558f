use livesplit_render::dirty::{
    calculate_bounds, dirty_rows, entity_bounds, glyph_transform, shadow_offset, stroke_radius,
    Span, SHADOW_OFFSET_RAW,
};
use livesplit_render::fixed::Fixed;
use livesplit_render::image::image_from_rgba;
use livesplit_render::scene::{
    Color, Entity, FillShader, Glyph, ImageHandle, Label, Path, Rect, Transform,
};
use std::rc::Rc;

fn white() -> Color {
    Color { red: Fixed::one(), green: Fixed::one(), blue: Fixed::one(), alpha: Fixed::one() }
}

fn path(id: u64, top: i64, bottom: i64) -> Option<Path> {
    Some(Path {
        id,
        bounds: Rect {
            left: Fixed::zero(),
            top: Fixed::from_int(top),
            right: Fixed::one(),
            bottom: Fixed::from_int(bottom),
        },
    })
}

fn vertical(y: i64, scale_y: i64) -> Transform {
    Transform { x: Fixed::zero(), y: Fixed::from_int(y), scale_x: Fixed::one(), scale_y: Fixed::from_int(scale_y) }
}

fn span(min_y: i64, max_y: i64) -> Span {
    Span { min_y: Fixed::from_int(min_y), max_y: Fixed::from_int(max_y) }
}

#[test]
fn the_empty_span_is_inverted() {
    let empty = Span::empty();
    assert!(empty.is_empty());
    assert_eq!(empty.min_y, Fixed::max_value());
    assert_eq!(empty.max_y, Fixed::min_value());
    assert!(!span(3, 3).is_empty());
    assert!(span(4, 3).is_empty());
}

#[test]
fn union_takes_the_least_and_the_greatest() {
    assert_eq!(span(10, 20).union(&span(25, 35)), span(10, 35));
    assert_eq!(span(25, 35).union(&span(10, 20)), span(10, 35));
    assert_eq!(span(10, 40).union(&span(20, 30)), span(10, 40));
    assert_eq!(Span::empty().union(&span(1, 2)), span(1, 2));
    assert_eq!(span(1, 2).union(&Span::empty()), span(1, 2));
    assert_eq!(Span::empty().union(&Span::empty()), Span::empty());
    assert_eq!(span(1, 2).union(&span(1, 2)), span(1, 2));
}

#[test]
fn stretch_widens_a_span() {
    assert_eq!(Span::empty().stretch(Fixed::from_int(3), Fixed::from_int(4)), span(3, 4));
    assert_eq!(span(3, 4).stretch(Fixed::from_int(5), Fixed::from_int(6)), span(3, 6));
    assert_eq!(span(3, 4).stretch(Fixed::from_int(0), Fixed::from_int(0)), span(0, 4));
}

#[test]
fn bounds_of_a_filled_path() {
    let entity = Entity::FillPath(path(0, 1, 3), FillShader::SolidColor(white()), vertical(10, 2));
    assert_eq!(entity_bounds(&entity), span(12, 16));
}

#[test]
fn bounds_of_a_flipped_path() {
    let entity = Entity::FillPath(path(0, 1, 3), FillShader::SolidColor(white()), vertical(10, -2));
    assert_eq!(entity_bounds(&entity), span(4, 8));
}

#[test]
fn bounds_of_a_path_that_was_not_built() {
    let entity = Entity::FillPath(None, FillShader::SolidColor(white()), vertical(10, 2));
    assert_eq!(entity_bounds(&entity), Span::empty());
    let entity = Entity::StrokePath(None, Fixed::from_int(4), white(), vertical(10, 2));
    assert_eq!(entity_bounds(&entity), Span::empty());
}

#[test]
fn bounds_of_a_stroke_reach_half_its_scaled_width_further() {
    let transform = vertical(10, 2);
    assert_eq!(stroke_radius(&transform, Fixed::from_int(4)), Fixed::from_int(4));
    assert_eq!(stroke_radius(&transform, Fixed::from_int(3)), Fixed::from_int(3));
    assert_eq!(stroke_radius(&vertical(0, 1), Fixed::from_int(3)), Fixed::from_ratio(3, 2));
    let entity = Entity::StrokePath(path(0, 1, 3), Fixed::from_int(4), white(), transform);
    assert_eq!(entity_bounds(&entity), span(8, 20));
}

#[test]
fn bounds_of_an_image_are_those_of_the_unit_square() {
    let image = Rc::new(image_from_rgba(vec![0; 4], 1, 1).unwrap());
    let entity = Entity::Image(ImageHandle { id: 1, image }, vertical(5, 20));
    assert_eq!(entity_bounds(&entity), span(5, 25));
}

fn glyph(path: Option<Path>) -> Glyph {
    Glyph { path, x: Fixed::from_int(1), y: Fixed::from_int(2), scale: Fixed::from_ratio(1, 2), color: None }
}

#[test]
fn glyph_transform_moves_then_scales() {
    let transform = Transform {
        x: Fixed::from_int(7),
        y: Fixed::from_int(100),
        scale_x: Fixed::from_int(4),
        scale_y: Fixed::from_int(10),
    };
    assert_eq!(
        glyph_transform(&transform, &glyph(None)),
        Transform {
            x: Fixed::from_int(11),
            y: Fixed::from_int(120),
            scale_x: Fixed::from_int(2),
            scale_y: Fixed::from_int(5),
        }
    );
}

#[test]
fn bounds_of_a_label() {
    let label = Rc::new(Label { glyphs: vec![glyph(path(0, -1, 1)), glyph(None)] });
    let entity = Entity::Label(label, FillShader::SolidColor(white()), None, vertical(100, 10));
    assert_eq!(entity_bounds(&entity), span(115, 125));
}

#[test]
fn bounds_of_a_label_with_a_shadow() {
    assert_eq!(SHADOW_OFFSET_RAW, 3277);
    assert_eq!(shadow_offset().raw, 3277);
    let label = Rc::new(Label { glyphs: vec![glyph(path(0, -1, 1))] });
    let entity =
        Entity::Label(label, FillShader::SolidColor(white()), Some(white()), vertical(100, 10));
    assert_eq!(
        entity_bounds(&entity),
        Span { min_y: Fixed::from_int(115), max_y: Fixed::from_raw(125 * 65536 + 32770) }
    );
}

#[test]
fn bounds_of_a_label_without_outlines() {
    let label = Rc::new(Label { glyphs: vec![glyph(None), glyph(None)] });
    let entity =
        Entity::Label(label, FillShader::SolidColor(white()), Some(white()), vertical(100, 10));
    assert_eq!(entity_bounds(&entity), Span::empty());
    let label = Rc::new(Label { glyphs: Vec::new() });
    let entity = Entity::Label(label, FillShader::SolidColor(white()), None, vertical(100, 10));
    assert_eq!(entity_bounds(&entity), Span::empty());
}

#[test]
fn bounds_of_a_layer() {
    let layer = vec![
        Entity::FillPath(path(0, 1, 3), FillShader::SolidColor(white()), vertical(10, 2)),
        Entity::FillPath(None, FillShader::SolidColor(white()), vertical(0, 1)),
        Entity::StrokePath(path(1, 0, 1), Fixed::from_int(2), white(), vertical(30, 1)),
    ];
    assert_eq!(calculate_bounds(&layer), span(12, 32));
    assert_eq!(calculate_bounds(&layer[..1]), span(12, 16));
    assert_eq!(calculate_bounds(&layer[1..2]), Span::empty());
    assert_eq!(calculate_bounds(&[]), Span::empty());
}

#[test]
fn the_span_of_a_layer_holds_that_of_each_entity() {
    let layer = vec![
        Entity::FillPath(path(0, 1, 3), FillShader::SolidColor(white()), vertical(10, 2)),
        Entity::StrokePath(path(1, 0, 1), Fixed::from_int(2), white(), vertical(-30, 1)),
        Entity::FillPath(path(2, 0, 1), FillShader::SolidColor(white()), vertical(40, 7)),
    ];
    let whole = calculate_bounds(&layer);
    for entity in &layer {
        let part = entity_bounds(entity);
        assert!(whole.min_y.raw <= part.min_y.raw);
        assert!(part.max_y.raw <= whole.max_y.raw);
    }
}

#[test]
fn dirty_rows_are_padded() {
    assert_eq!(dirty_rows(&span(10, 20), 50), (9, 22));
    assert_eq!(dirty_rows(&span(10, 35), 50), (9, 37));
    assert_eq!(dirty_rows(&span(10, 10), 50), (9, 12));
}

#[test]
fn dirty_rows_round_down() {
    let between = Span { min_y: Fixed::from_ratio(21, 2), max_y: Fixed::from_ratio(107, 10) };
    assert_eq!(dirty_rows(&between, 50), (9, 12));
}

#[test]
fn dirty_rows_stay_on_the_surface() {
    let wide = Span { min_y: Fixed::from_ratio(1, 2), max_y: Fixed::from_ratio(487, 10) };
    assert_eq!(dirty_rows(&wide, 50), (0, 50));
    assert_eq!(dirty_rows(&span(60, 70), 50), (50, 50));
    assert_eq!(dirty_rows(&span(-20, -10), 50), (0, 0));
    assert_eq!(dirty_rows(&span(-20, 70), 50), (0, 50));
    assert_eq!(dirty_rows(&span(48, 48), 50), (47, 50));
    assert_eq!(dirty_rows(&span(0, 0), 50), (0, 2));
    assert_eq!(
        dirty_rows(&Span { min_y: Fixed::min_value(), max_y: Fixed::max_value() }, 50),
        (0, 50)
    );
}

#[test]
fn an_empty_span_has_no_dirty_rows() {
    assert_eq!(dirty_rows(&Span::empty(), 50), (0, 0));
    assert_eq!(dirty_rows(&span(20, 10), 50), (0, 0));
}
