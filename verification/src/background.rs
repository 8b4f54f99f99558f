use vstd::prelude::*;
use crate::blur::{
    cached_key, is_job_for, needs_blur, update_blurred_background_image, updated_cache, BlurJob,
    BlurredImage,
};
use crate::fixed::{Fixed, ONE_RAW};
use crate::rasterizer::{convert_shader, spec_convert_shader, Paint};
use crate::scene::{Background, Color, FillShader, Rect, Transform};
use crate::surface::{clear, pixmap_bytes, pixmap_size};

verus! {

/// What the rasterizer has to paint onto the background surface before the
/// bottom layer. Whatever it paints replaces what the surface holds.
#[derive(Clone, Copy, Debug, PartialEq, Eq, Structural)]
pub enum BackgroundFill {
    /// Nothing: the surface has been made transparent.
    Transparent,
    /// Every pixel gets the color.
    Solid(Color),
    /// The rectangle from the origin to `(width, height)` gets the gradient.
    Gradient { paint: Paint, width: u32, height: u32 },
    /// The unit square, transformed, gets the background image with the given
    /// opacity, filtered bilinearly: the blurred copy from the cache where
    /// `blurred` is set, else the image itself. Where there is a brightness,
    /// the same square is then multiplied by a gray of that brightness.
    Image { blurred: bool, opacity: Fixed, transform: Transform, brightness: Option<Fixed> },
}

/// The rectangle from the origin to `(width, height)`.
pub open spec fn viewport(width: u32, height: u32) -> Rect {
    Rect {
        left: Fixed::spec_zero(),
        top: Fixed::spec_zero(),
        right: Fixed::spec_from_int(width as int),
        bottom: Fixed::spec_from_int(height as int),
    }
}

/// What the rasterizer has to paint for a background on a surface of which
/// `width` by `height` pixels are shown.
pub open spec fn spec_background_fill(
    background: Option<Background>,
    width: u32,
    height: u32,
) -> BackgroundFill {
    match background {
        None => BackgroundFill::Transparent,
        Some(Background::Shader(FillShader::SolidColor(color))) => BackgroundFill::Solid(color),
        Some(Background::Shader(shader)) => {
            let around = viewport(width, height);
            BackgroundFill::Gradient {
                paint: spec_convert_shader(
                    shader,
                    around.top,
                    around.bottom,
                    around.left,
                    around.right,
                ),
                width,
                height,
            }
        },
        Some(Background::Image(image, transform)) => BackgroundFill::Image {
            blurred: image.blur.raw != 0,
            opacity: image.opacity,
            transform,
            brightness: if image.brightness.raw != ONE_RAW {
                Some(image.brightness.spec_clamp_unit())
            } else {
                None
            },
        },
    }
}

/// What repainting the background takes.
pub struct BackgroundWork {
    /// The image to blur first, where the cache lacks the blurred background
    /// image.
    pub blur: Option<BlurJob>,
    /// What to paint onto the background surface.
    pub fill: BackgroundFill,
}

/// Starts the background anew on `surface`.
///
/// The cache of the blurred background image is brought in line with the
/// background: it is emptied unless it holds the blurred image that the
/// background calls for. Without a background the surface is made
/// transparent. With one the surface is left as it is, and the fill that
/// comes back says what to paint over all of it.
pub fn fill_background(
    background: &Option<Background>,
    cache: &mut Option<BlurredImage>,
    surface: &mut tiny_skia::Pixmap,
    width: u32,
    height: u32,
) -> (work: BackgroundWork)
    ensures
        work.fill == spec_background_fill(*background, width, height),
        pixmap_size(*final(surface)) == pixmap_size(*old(surface)),
        pixmap_bytes(*final(surface)) == if *background is None {
            Seq::new(pixmap_bytes(*old(surface)).len(), |i: int| 0u8)
        } else {
            pixmap_bytes(*old(surface))
        },
        *final(cache) == updated_cache(*old(cache), *background),
        work.blur is Some <==> needs_blur(cached_key(*old(cache)), *background),
        work.blur matches Some(job) ==> is_job_for(job, *background),
{
    let blur = update_blurred_background_image(background, cache);
    let fill = match background {
        None => {
            clear(surface);
            BackgroundFill::Transparent
        },
        Some(Background::Shader(shader)) => match shader {
            FillShader::SolidColor(color) => BackgroundFill::Solid(*color),
            _ => {
                let around = Rect {
                    left: Fixed::zero(),
                    top: Fixed::zero(),
                    right: Fixed::from_int(width as i64),
                    bottom: Fixed::from_int(height as i64),
                };
                BackgroundFill::Gradient { paint: convert_shader(shader, &around), width, height }
            },
        },
        Some(Background::Image(image, transform)) => BackgroundFill::Image {
            blurred: image.blur.raw != 0,
            opacity: image.opacity,
            transform: *transform,
            brightness: if image.brightness.raw != ONE_RAW {
                Some(image.brightness.clamp_unit())
            } else {
                None
            },
        },
    };
    BackgroundWork { blur, fill }
}

} // verus!
