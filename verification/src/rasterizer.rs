use vstd::prelude::*;
use crate::dirty::{glyph_transform, shadow_offset, spec_glyph_transform, spec_shadow_offset};
use crate::fixed::Fixed;
use crate::scene::{Color, Entity, FillShader, Glyph, Point, Rect, Transform};

verus! {

/// What a shape is painted with. Every paint is anti-aliased.
#[derive(Clone, Copy, Debug, PartialEq, Eq, Structural)]
pub enum Paint {
    /// One color everywhere.
    Solid(Color),
    /// A gradient along the line from `start` to `end`, from the first color
    /// to the second. Before `start` and after `end` the nearer color goes
    /// on.
    LinearGradient { start: Point, end: Point, first: Color, second: Color },
}

/// One step of drawing a layer.
#[derive(Clone, Copy, Debug, PartialEq, Eq, Structural)]
pub enum DrawCommand {
    /// Fill the outline with the given number by the non-zero winding rule.
    FillPath { path: u64, paint: Paint, transform: Transform },
    /// Stroke the outline with the given number with a solid line.
    StrokePath { path: u64, width: Fixed, color: Color, transform: Transform },
    /// Fill the unit square with the image of the layer's entity at `entity`,
    /// scaled so that the image covers the square once, filtered bilinearly.
    FillImage { entity: usize, transform: Transform },
}

/// The paint that a fill amounts to on a shape whose box reaches from `top`
/// to `bottom` and from `left` to `right`.
pub open spec fn spec_convert_shader(
    shader: FillShader,
    top: Fixed,
    bottom: Fixed,
    left: Fixed,
    right: Fixed,
) -> Paint {
    match shader {
        FillShader::SolidColor(color) => Paint::Solid(color),
        FillShader::VerticalGradient(first, second) => Paint::LinearGradient {
            start: Point { x: Fixed::spec_zero(), y: top },
            end: Point { x: Fixed::spec_zero(), y: bottom },
            first,
            second,
        },
        FillShader::HorizontalGradient(first, second) => Paint::LinearGradient {
            start: Point { x: left, y: Fixed::spec_zero() },
            end: Point { x: right, y: Fixed::spec_zero() },
            first,
            second,
        },
    }
}

/// The paint that a fill amounts to on a shape with the given box.
pub fn convert_shader(shader: &FillShader, bounds: &Rect) -> (r: Paint)
    ensures
        r == spec_convert_shader(*shader, bounds.top, bounds.bottom, bounds.left, bounds.right),
{
    match shader {
        FillShader::SolidColor(color) => Paint::Solid(*color),
        FillShader::VerticalGradient(first, second) => Paint::LinearGradient {
            start: Point { x: Fixed::zero(), y: bounds.top },
            end: Point { x: Fixed::zero(), y: bounds.bottom },
            first: *first,
            second: *second,
        },
        FillShader::HorizontalGradient(first, second) => Paint::LinearGradient {
            start: Point { x: bounds.left, y: Fixed::zero() },
            end: Point { x: bounds.right, y: Fixed::zero() },
            first: *first,
            second: *second,
        },
    }
}

/// The box around the outlines of all glyphs, each in its own coordinates,
/// before the order of its sides is looked at.
pub open spec fn glyphs_box(glyphs: Seq<Glyph>) -> Rect
    decreases glyphs.len(),
{
    if glyphs.len() == 0 {
        Rect {
            left: Fixed::spec_max_value(),
            top: Fixed::spec_max_value(),
            right: Fixed::spec_min_value(),
            bottom: Fixed::spec_min_value(),
        }
    } else {
        let rest = glyphs_box(glyphs.drop_last());
        match glyphs.last().path {
            Some(path) => Rect {
                left: rest.left.spec_min(path.bounds.left),
                top: rest.top.spec_min(path.bounds.top),
                right: rest.right.spec_max(path.bounds.right),
                bottom: rest.bottom.spec_max(path.bounds.bottom),
            },
            None => rest,
        }
    }
}

/// The box that a label's gradient is laid over: the box around the outlines
/// of its glyphs, with a side of no length where the box would be inverted,
/// as it is for a label without any outline.
pub open spec fn label_box(glyphs: Seq<Glyph>) -> Rect {
    let around = glyphs_box(glyphs);
    let upright = around.bottom.raw >= around.top.raw;
    let level = around.right.raw >= around.left.raw;
    Rect {
        left: if level {
            around.left
        } else {
            Fixed::spec_zero()
        },
        top: if upright {
            around.top
        } else {
            Fixed::spec_zero()
        },
        right: if level {
            around.right
        } else {
            Fixed::spec_zero()
        },
        bottom: if upright {
            around.bottom
        } else {
            Fixed::spec_zero()
        },
    }
}

/// The paint of a label's glyphs that have no color of their own.
pub open spec fn spec_label_paint(shader: FillShader, glyphs: Seq<Glyph>) -> Paint {
    let bounds = label_box(glyphs);
    spec_convert_shader(shader, bounds.top, bounds.bottom, bounds.left, bounds.right)
}

fn glyphs_bounds(glyphs: &Vec<Glyph>) -> (r: Rect)
    ensures
        r == label_box(glyphs@),
{
    let mut around = Rect {
        left: Fixed::max_value(),
        top: Fixed::max_value(),
        right: Fixed::min_value(),
        bottom: Fixed::min_value(),
    };
    let mut i: usize = 0;
    while i < glyphs.len()
        invariant
            i <= glyphs@.len(),
            around == glyphs_box(glyphs@.take(i as int)),
        decreases glyphs@.len() - i,
    {
        proof {
            assert(glyphs@.take(i + 1).drop_last() == glyphs@.take(i as int));
        }
        if let Some(path) = &glyphs[i].path {
            around = Rect {
                left: around.left.min(path.bounds.left),
                top: around.top.min(path.bounds.top),
                right: around.right.max(path.bounds.right),
                bottom: around.bottom.max(path.bounds.bottom),
            };
        }
        i += 1;
    }
    proof {
        assert(glyphs@.take(glyphs@.len() as int) == glyphs@);
    }
    let upright = around.bottom.raw >= around.top.raw;
    let level = around.right.raw >= around.left.raw;
    Rect {
        left: if level {
            around.left
        } else {
            Fixed::zero()
        },
        top: if upright {
            around.top
        } else {
            Fixed::zero()
        },
        right: if level {
            around.right
        } else {
            Fixed::zero()
        },
        bottom: if upright {
            around.bottom
        } else {
            Fixed::zero()
        },
    }
}

/// The paint of a label's glyphs that have no color of their own. The box
/// around the glyphs is worked out for a gradient only.
pub fn label_paint(shader: &FillShader, glyphs: &Vec<Glyph>) -> (r: Paint)
    ensures
        r == spec_label_paint(*shader, glyphs@),
{
    match shader {
        FillShader::SolidColor(color) => Paint::Solid(*color),
        _ => {
            let bounds = glyphs_bounds(glyphs);
            convert_shader(shader, &bounds)
        },
    }
}

/// The color of a label's shadow: the shadow's color, as opaque as the
/// label's fill lets it be.
pub open spec fn spec_shadow_color(shadow: Color, shader: FillShader) -> Color {
    shadow.spec_with_opacity(shader.spec_opacity())
}

/// The color of a label's shadow.
pub fn shadow_color(shadow: &Color, shader: &FillShader) -> (r: Color)
    ensures
        r == spec_shadow_color(*shadow, *shader),
{
    shadow.with_opacity(shader.opacity())
}

/// The commands that draw the glyphs of a label in one pass, in their order.
/// A glyph without an outline draws nothing. Where `own_colors` is set, a
/// glyph with a color of its own is painted with it instead of `paint`.
pub open spec fn glyphs_commands(
    glyphs: Seq<Glyph>,
    paint: Paint,
    transform: Transform,
    own_colors: bool,
) -> Seq<DrawCommand>
    decreases glyphs.len(),
{
    if glyphs.len() == 0 {
        Seq::empty()
    } else {
        let glyph = glyphs.last();
        let before = glyphs_commands(glyphs.drop_last(), paint, transform, own_colors);
        match glyph.path {
            Some(path) => before.push(
                DrawCommand::FillPath {
                    path: path.id,
                    paint: match glyph.color {
                        Some(color) if own_colors => Paint::Solid(color),
                        _ => paint,
                    },
                    transform: spec_glyph_transform(transform, glyph),
                },
            ),
            None => before,
        }
    }
}

/// The commands that draw the entity that stands at `index` in its layer.
pub open spec fn entity_commands(entity: Entity, index: int) -> Seq<DrawCommand> {
    match entity {
        Entity::FillPath(path, shader, transform) => match path {
            Some(path) => seq![
                DrawCommand::FillPath {
                    path: path.id,
                    paint: spec_convert_shader(
                        shader,
                        path.bounds.top,
                        path.bounds.bottom,
                        path.bounds.left,
                        path.bounds.right,
                    ),
                    transform,
                },
            ],
            None => Seq::empty(),
        },
        Entity::StrokePath(path, width, color, transform) => match path {
            Some(path) => seq![DrawCommand::StrokePath { path: path.id, width, color, transform }],
            None => Seq::empty(),
        },
        Entity::Image(_, transform) => seq![
            DrawCommand::FillImage { entity: index as usize, transform },
        ],
        Entity::Label(label, shader, shadow, transform) => {
            let paint = spec_label_paint(shader, label.glyphs@);
            let main = glyphs_commands(label.glyphs@, paint, transform, true);
            match shadow {
                Some(shadow) => glyphs_commands(
                    label.glyphs@,
                    Paint::Solid(spec_shadow_color(shadow, shader)),
                    transform.spec_pre_translate(spec_shadow_offset(), spec_shadow_offset()),
                    false,
                ) + main,
                None => main,
            }
        },
    }
}

/// The commands that draw a layer: those of its entities, one entity after
/// the other, so that a later entity is painted over an earlier one.
pub open spec fn layer_commands(layer: Seq<Entity>) -> Seq<DrawCommand>
    decreases layer.len(),
{
    if layer.len() == 0 {
        Seq::empty()
    } else {
        layer_commands(layer.drop_last()) + entity_commands(layer.last(), layer.len() - 1)
    }
}

fn push_glyphs(
    commands: &mut Vec<DrawCommand>,
    glyphs: &Vec<Glyph>,
    paint: Paint,
    transform: &Transform,
    own_colors: bool,
)
    ensures
        final(commands)@ == old(commands)@ + glyphs_commands(
            glyphs@,
            paint,
            *transform,
            own_colors,
        ),
{
    let mut i: usize = 0;
    while i < glyphs.len()
        invariant
            i <= glyphs@.len(),
            commands@ == old(commands)@ + glyphs_commands(
                glyphs@.take(i as int),
                paint,
                *transform,
                own_colors,
            ),
        decreases glyphs@.len() - i,
    {
        proof {
            assert(glyphs@.take(i + 1).drop_last() == glyphs@.take(i as int));
        }
        let glyph = &glyphs[i];
        if let Some(path) = &glyph.path {
            let glyph_paint = match &glyph.color {
                Some(color) if own_colors => Paint::Solid(*color),
                _ => paint,
            };
            commands.push(
                DrawCommand::FillPath {
                    path: path.id,
                    paint: glyph_paint,
                    transform: glyph_transform(transform, glyph),
                },
            );
        }
        i += 1;
    }
    proof {
        assert(glyphs@.take(glyphs@.len() as int) == glyphs@);
    }
}

fn push_entity(commands: &mut Vec<DrawCommand>, entity: &Entity, index: usize)
    ensures
        final(commands)@ == old(commands)@ + entity_commands(*entity, index as int),
{
    match entity {
        Entity::FillPath(path, shader, transform) => {
            if let Some(path) = path {
                let paint = convert_shader(shader, &path.bounds);
                commands.push(DrawCommand::FillPath { path: path.id, paint, transform: *transform });
            }
        },
        Entity::StrokePath(path, width, color, transform) => {
            if let Some(path) = path {
                commands.push(
                    DrawCommand::StrokePath {
                        path: path.id,
                        width: *width,
                        color: *color,
                        transform: *transform,
                    },
                );
            }
        },
        Entity::Image(_, transform) => {
            commands.push(DrawCommand::FillImage { entity: index, transform: *transform });
        },
        Entity::Label(label, shader, shadow, transform) => {
            let paint = label_paint(shader, &label.glyphs);
            if let Some(shadow) = shadow {
                let color = shadow_color(shadow, shader);
                let moved = transform.pre_translate(shadow_offset(), shadow_offset());
                push_glyphs(commands, &label.glyphs, Paint::Solid(color), &moved, false);
            }
            push_glyphs(commands, &label.glyphs, paint, transform, true);
        },
    }
}

/// Whether a command that fills an image names an entity of the layer that
/// is an image.
pub open spec fn names_image(command: DrawCommand, layer: Seq<Entity>) -> bool {
    command matches DrawCommand::FillImage { entity, .. } ==> entity < layer.len()
        && layer[entity as int] is Image
}

proof fn lemma_glyphs_commands_fill_paths(
    glyphs: Seq<Glyph>,
    paint: Paint,
    transform: Transform,
    own_colors: bool,
    k: int,
)
    requires
        0 <= k < glyphs_commands(glyphs, paint, transform, own_colors).len(),
    ensures
        glyphs_commands(glyphs, paint, transform, own_colors)[k] is FillPath,
    decreases glyphs.len(),
{
    if glyphs.len() > 0 {
        let before = glyphs_commands(glyphs.drop_last(), paint, transform, own_colors);
        if k < before.len() {
            lemma_glyphs_commands_fill_paths(glyphs.drop_last(), paint, transform, own_colors, k);
        }
    }
}

/// Every command of a layer that fills an image names an entity of the layer
/// that is an image.
pub proof fn lemma_image_commands_name_images(layer: Seq<Entity>, k: int)
    requires
        0 <= k < layer_commands(layer).len(),
        layer.len() <= usize::MAX,
    ensures
        names_image(layer_commands(layer)[k], layer),
    decreases layer.len(),
{
    let init = layer.drop_last();
    let before = layer_commands(init);
    if k < before.len() {
        lemma_image_commands_name_images(init, k);
    } else {
        let own = entity_commands(layer.last(), layer.len() - 1);
        let j = k - before.len();
        match layer.last() {
            Entity::Label(label, shader, shadow, transform) => {
                let paint = spec_label_paint(shader, label.glyphs@);
                let main = glyphs_commands(label.glyphs@, paint, transform, true);
                match shadow {
                    Some(shadow) => {
                        let moved = transform.spec_pre_translate(
                            spec_shadow_offset(),
                            spec_shadow_offset(),
                        );
                        let cast = glyphs_commands(
                            label.glyphs@,
                            Paint::Solid(spec_shadow_color(shadow, shader)),
                            moved,
                            false,
                        );
                        if j < cast.len() {
                            lemma_glyphs_commands_fill_paths(
                                label.glyphs@,
                                Paint::Solid(spec_shadow_color(shadow, shader)),
                                moved,
                                false,
                                j,
                            );
                        } else {
                            lemma_glyphs_commands_fill_paths(
                                label.glyphs@,
                                paint,
                                transform,
                                true,
                                j - cast.len(),
                            );
                        }
                    },
                    None => {
                        lemma_glyphs_commands_fill_paths(label.glyphs@, paint, transform, true, j);
                    },
                }
            },
            _ => {},
        }
    }
}

/// The commands that draw a layer, in the order in which a rasterizer has to
/// carry them out.
pub fn render_layer(layer: &[Entity]) -> (r: Vec<DrawCommand>)
    ensures
        r@ == layer_commands(layer@),
        forall|k: int| 0 <= k < r@.len() ==> names_image(#[trigger] r@[k], layer@),
{
    let mut commands: Vec<DrawCommand> = Vec::new();
    let mut i: usize = 0;
    while i < layer.len()
        invariant
            i <= layer@.len(),
            commands@ == layer_commands(layer@.take(i as int)),
        decreases layer@.len() - i,
    {
        proof {
            assert(layer@.take(i + 1).drop_last() == layer@.take(i as int));
        }
        push_entity(&mut commands, &layer[i], i);
        i += 1;
    }
    proof {
        assert(layer@.take(layer@.len() as int) == layer@);
        assert forall|k: int| 0 <= k < commands@.len() implies names_image(
            #[trigger] commands@[k],
            layer@,
        ) by {
            lemma_image_commands_name_images(layer@, k);
        }
    }
    commands
}

} // verus!
