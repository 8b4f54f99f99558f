use livesplit_render::fixed::Fixed;
use livesplit_render::scene::{Color, Entity, FillShader, Scene, Transform};

fn transform(x: i64, y: i64, scale_x: i64, scale_y: i64) -> Transform {
    Transform {
        x: Fixed::from_int(x),
        y: Fixed::from_int(y),
        scale_x: Fixed::from_int(scale_x),
        scale_y: Fixed::from_int(scale_y),
    }
}

fn gray(level: (i64, u32), alpha: (i64, u32)) -> Color {
    let level = Fixed::from_ratio(level.0, level.1);
    Color { red: level, green: level, blue: level, alpha: Fixed::from_ratio(alpha.0, alpha.1) }
}

#[test]
fn the_identity_leaves_coordinates() {
    let identity = Transform::identity();
    assert_eq!(identity, transform(0, 0, 1, 1));
    assert_eq!(identity.transform_x(Fixed::from_ratio(7, 3)), Fixed::from_ratio(7, 3));
    assert_eq!(identity.transform_y(Fixed::from_int(-4)), Fixed::from_int(-4));
}

#[test]
fn a_transform_scales_and_then_moves() {
    let map = transform(10, 20, 2, 3);
    assert_eq!(map.transform_x(Fixed::from_int(5)), Fixed::from_int(20));
    assert_eq!(map.transform_y(Fixed::from_int(5)), Fixed::from_int(35));
    assert_eq!(map.transform_y(Fixed::from_ratio(1, 2)), Fixed::from_ratio(43, 2));
    assert_eq!(map.transform_x(Fixed::zero()), Fixed::from_int(10));
}

#[test]
fn pre_translate_moves_in_the_scaled_plane() {
    let map = transform(10, 20, 2, 3);
    let moved = map.pre_translate(Fixed::from_int(1), Fixed::from_int(-1));
    assert_eq!(moved, transform(12, 17, 2, 3));
    assert_eq!(
        moved.transform_y(Fixed::from_int(4)),
        map.transform_y(Fixed::from_int(4).plus(Fixed::from_int(-1)))
    );
}

#[test]
fn pre_scale_multiplies_the_scales() {
    let map = transform(10, 20, 2, 3);
    let scaled = map.pre_scale(Fixed::from_int(5), Fixed::from_ratio(1, 2));
    assert_eq!(
        scaled,
        Transform {
            x: Fixed::from_int(10),
            y: Fixed::from_int(20),
            scale_x: Fixed::from_int(10),
            scale_y: Fixed::from_ratio(3, 2),
        }
    );
}

#[test]
fn a_transform_saturates() {
    let map = Transform {
        x: Fixed::max_value(),
        y: Fixed::min_value(),
        scale_x: Fixed::one(),
        scale_y: Fixed::max_value(),
    };
    assert_eq!(map.transform_x(Fixed::one()), Fixed::max_value());
    assert_eq!(map.transform_y(Fixed::zero()), Fixed::min_value());
    assert_eq!(map.transform_y(Fixed::from_int(2)).raw, -1);
}

#[test]
fn valid_colors_lie_in_the_unit_stretch() {
    assert!(gray((1, 2), (1, 1)).is_valid());
    assert!(gray((0, 1), (0, 1)).is_valid());
    assert!(gray((1, 1), (1, 1)).is_valid());
    assert!(!gray((3, 2), (1, 1)).is_valid());
    assert!(!gray((1, 2), (-1, 4)).is_valid());
    assert!(!gray((1, 2), (5, 4)).is_valid());
}

#[test]
fn opacity_scales_the_alpha_only() {
    let color = gray((1, 2), (1, 2));
    assert_eq!(color.with_opacity(Fixed::from_ratio(1, 2)), gray((1, 2), (1, 4)));
    assert_eq!(color.with_opacity(Fixed::one()), color);
    assert_eq!(color.with_opacity(Fixed::zero()), gray((1, 2), (0, 1)));
    assert_eq!(color.with_opacity(Fixed::from_int(7)), color);
    assert_eq!(color.with_opacity(Fixed::from_int(-7)), gray((1, 2), (0, 1)));
    assert_eq!(gray((1, 2), (3, 1)).with_opacity(Fixed::one()), gray((1, 2), (1, 1)));
}

#[test]
fn the_opacity_of_a_fill() {
    let half = gray((1, 1), (1, 2));
    let full = gray((1, 1), (1, 1));
    assert_eq!(FillShader::SolidColor(half).opacity(), Fixed::from_ratio(1, 2));
    assert_eq!(FillShader::VerticalGradient(half, full).opacity(), Fixed::from_ratio(3, 4));
    assert_eq!(FillShader::HorizontalGradient(full, half).opacity(), Fixed::from_ratio(3, 4));
}

#[test]
fn a_scene_hands_out_its_parts() {
    let fill = FillShader::SolidColor(gray((1, 1), (1, 1)));
    let scene = Scene {
        background: None,
        bottom_layer_changed: true,
        bottom_layer: vec![Entity::FillPath(None, fill, Transform::identity())],
        top_layer: Vec::new(),
    };
    assert!(scene.background().is_none());
    assert!(scene.bottom_layer_changed());
    assert_eq!(scene.bottom_layer().len(), 1);
    assert!(scene.top_layer().is_empty());
}
