use vstd::prelude::*;
use std::rc::Rc;
use crate::fixed::Fixed;
use crate::image::Image;

verus! {

/// A point of the plane.
#[derive(Clone, Copy, Debug, PartialEq, Eq, Structural)]
pub struct Point {
    pub x: Fixed,
    pub y: Fixed,
}

/// The box around a shape, in the shape's own coordinates.
#[derive(Clone, Copy, Debug, PartialEq, Eq, Structural)]
pub struct Rect {
    pub left: Fixed,
    pub top: Fixed,
    pub right: Fixed,
    pub bottom: Fixed,
}

/// A color with straight alpha. Each channel lies between zero and one.
#[derive(Clone, Copy, Debug, PartialEq, Eq, Structural)]
pub struct Color {
    pub red: Fixed,
    pub green: Fixed,
    pub blue: Fixed,
    pub alpha: Fixed,
}

impl Color {
    /// Whether each channel lies between zero and one.
    pub open spec fn spec_is_valid(self) -> bool {
        &&& self.red.spec_is_unit()
        &&& self.green.spec_is_unit()
        &&& self.blue.spec_is_unit()
        &&& self.alpha.spec_is_unit()
    }

    /// The color with its alpha multiplied by an opacity. The opacity is
    /// brought into the stretch from zero to one first, and so is the alpha
    /// that comes out.
    pub open spec fn spec_with_opacity(self, opacity: Fixed) -> Color {
        Color {
            red: self.red,
            green: self.green,
            blue: self.blue,
            alpha: self.alpha.spec_times(opacity.spec_clamp_unit()).spec_clamp_unit(),
        }
    }

    /// Whether each channel lies between zero and one.
    pub fn is_valid(&self) -> (r: bool)
        ensures
            r == self.spec_is_valid(),
    {
        self.red.is_unit() && self.green.is_unit() && self.blue.is_unit() && self.alpha.is_unit()
    }

    /// The color with its alpha multiplied by an opacity.
    pub fn with_opacity(&self, opacity: Fixed) -> (r: Color)
        ensures
            r == self.spec_with_opacity(opacity),
    {
        Color {
            red: self.red,
            green: self.green,
            blue: self.blue,
            alpha: self.alpha.times(opacity.clamp_unit()).clamp_unit(),
        }
    }
}

/// A map of the plane that scales each axis on its own and then moves.
#[derive(Clone, Copy, Debug, PartialEq, Eq, Structural)]
pub struct Transform {
    pub x: Fixed,
    pub y: Fixed,
    pub scale_x: Fixed,
    pub scale_y: Fixed,
}

impl Transform {
    /// The map that leaves every point where it is.
    pub open spec fn spec_identity() -> Transform {
        Transform {
            x: Fixed::spec_zero(),
            y: Fixed::spec_zero(),
            scale_x: Fixed::spec_one(),
            scale_y: Fixed::spec_one(),
        }
    }

    /// Where the map sends a horizontal coordinate.
    pub open spec fn spec_transform_x(self, x: Fixed) -> Fixed {
        self.x.spec_plus(self.scale_x.spec_times(x))
    }

    /// Where the map sends a vertical coordinate.
    pub open spec fn spec_transform_y(self, y: Fixed) -> Fixed {
        self.y.spec_plus(self.scale_y.spec_times(y))
    }

    /// The map that first moves by `(x, y)` and then does what this one does.
    pub open spec fn spec_pre_translate(self, x: Fixed, y: Fixed) -> Transform {
        Transform {
            x: self.spec_transform_x(x),
            y: self.spec_transform_y(y),
            scale_x: self.scale_x,
            scale_y: self.scale_y,
        }
    }

    /// The map that first scales by `(scale_x, scale_y)` and then does what
    /// this one does.
    pub open spec fn spec_pre_scale(self, scale_x: Fixed, scale_y: Fixed) -> Transform {
        Transform {
            x: self.x,
            y: self.y,
            scale_x: self.scale_x.spec_times(scale_x),
            scale_y: self.scale_y.spec_times(scale_y),
        }
    }

    /// The map that leaves every point where it is.
    pub fn identity() -> (r: Transform)
        ensures
            r == Transform::spec_identity(),
    {
        Transform { x: Fixed::zero(), y: Fixed::zero(), scale_x: Fixed::one(), scale_y: Fixed::one() }
    }

    /// Where the map sends a horizontal coordinate.
    pub fn transform_x(&self, x: Fixed) -> (r: Fixed)
        ensures
            r == self.spec_transform_x(x),
    {
        self.x.plus(self.scale_x.times(x))
    }

    /// Where the map sends a vertical coordinate.
    pub fn transform_y(&self, y: Fixed) -> (r: Fixed)
        ensures
            r == self.spec_transform_y(y),
    {
        self.y.plus(self.scale_y.times(y))
    }

    /// The map that first moves by `(x, y)` and then does what this one does.
    pub fn pre_translate(&self, x: Fixed, y: Fixed) -> (r: Transform)
        ensures
            r == self.spec_pre_translate(x, y),
    {
        Transform {
            x: self.transform_x(x),
            y: self.transform_y(y),
            scale_x: self.scale_x,
            scale_y: self.scale_y,
        }
    }

    /// The map that first scales by `(scale_x, scale_y)` and then does what
    /// this one does.
    pub fn pre_scale(&self, scale_x: Fixed, scale_y: Fixed) -> (r: Transform)
        ensures
            r == self.spec_pre_scale(scale_x, scale_y),
    {
        Transform {
            x: self.x,
            y: self.y,
            scale_x: self.scale_x.times(scale_x),
            scale_y: self.scale_y.times(scale_y),
        }
    }
}

/// How a shape or a label is filled.
#[derive(Clone, Copy, Debug, PartialEq, Eq, Structural)]
pub enum FillShader {
    /// One color everywhere.
    SolidColor(Color),
    /// From the first color at the top to the second at the bottom.
    VerticalGradient(Color, Color),
    /// From the first color at the left to the second at the right.
    HorizontalGradient(Color, Color),
}

impl FillShader {
    /// The opacity of the fill as a whole: the alpha of a solid color, the
    /// mean of the alphas of a gradient's two colors.
    pub open spec fn spec_opacity(self) -> Fixed {
        match self {
            FillShader::SolidColor(color) => color.alpha,
            FillShader::VerticalGradient(first, second) => first.alpha.spec_mean(second.alpha),
            FillShader::HorizontalGradient(first, second) => first.alpha.spec_mean(second.alpha),
        }
    }

    /// The opacity of the fill as a whole.
    pub fn opacity(&self) -> (r: Fixed)
        ensures
            r == self.spec_opacity(),
    {
        match self {
            FillShader::SolidColor(color) => color.alpha,
            FillShader::VerticalGradient(first, second) => first.alpha.mean(second.alpha),
            FillShader::HorizontalGradient(first, second) => first.alpha.mean(second.alpha),
        }
    }
}

/// A finished outline. The rasterizer keeps the outline itself under `id`;
/// here is the box around it.
#[derive(Clone, Copy, Debug, PartialEq, Eq, Structural)]
pub struct Path {
    pub id: u64,
    pub bounds: Rect,
}

/// One glyph of a label: its outline if it has one, where it stands, how much
/// it is scaled, and a color of its own if it has one.
#[derive(Clone, Copy, Debug, PartialEq, Eq, Structural)]
pub struct Glyph {
    pub path: Option<Path>,
    pub x: Fixed,
    pub y: Fixed,
    pub scale: Fixed,
    pub color: Option<Color>,
}

/// A piece of text that has been laid out.
pub struct Label {
    pub glyphs: Vec<Glyph>,
}

/// A decoded image and the number by which it is told from other images.
pub struct ImageHandle {
    pub id: u64,
    pub image: Rc<Image>,
}

/// Something to draw. The transform maps the entity's own coordinates onto
/// the surface.
pub enum Entity {
    /// A filled outline. An outline that could not be built draws nothing.
    FillPath(Option<Path>, FillShader, Transform),
    /// An outline stroked with a line of the given width and color.
    StrokePath(Option<Path>, Fixed, Color, Transform),
    /// An image that covers the unit square.
    Image(ImageHandle, Transform),
    /// A label with its fill and, if it casts one, the color of its shadow.
    Label(Rc<Label>, FillShader, Option<Color>, Transform),
}

/// An image behind everything else, and how it is toned down.
pub struct BackgroundImage {
    pub image: ImageHandle,
    pub brightness: Fixed,
    pub opacity: Fixed,
    pub blur: Fixed,
}

/// What lies behind both layers.
pub enum Background {
    Shader(FillShader),
    Image(BackgroundImage, Transform),
}

/// What a frame shows: a bottom layer that seldom changes, a top layer that
/// changes often, and the background behind both.
pub struct Scene {
    pub background: Option<Background>,
    pub bottom_layer_changed: bool,
    pub bottom_layer: Vec<Entity>,
    pub top_layer: Vec<Entity>,
}

impl Scene {
    /// The background, if there is one.
    pub fn background(&self) -> (r: &Option<Background>)
        ensures
            *r == self.background,
    {
        &self.background
    }

    /// Whether the bottom layer or the background differ from the frame
    /// before.
    pub fn bottom_layer_changed(&self) -> (r: bool)
        ensures
            r == self.bottom_layer_changed,
    {
        self.bottom_layer_changed
    }

    /// The entities of the bottom layer, in the order in which they are drawn.
    pub fn bottom_layer(&self) -> (r: &[Entity])
        ensures
            r@ == self.bottom_layer@,
    {
        self.bottom_layer.as_slice()
    }

    /// The entities of the top layer, in the order in which they are drawn.
    pub fn top_layer(&self) -> (r: &[Entity])
        ensures
            r@ == self.top_layer@,
    {
        self.top_layer.as_slice()
    }
}

} // verus!
