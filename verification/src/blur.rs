use vstd::prelude::*;
use vstd::slice::slice_to_vec;
use crate::fixed::Fixed;
use crate::scene::Background;
use crate::surface::{pixmap_bytes, pixmap_from_vec, pixmap_size, surface_len, valid_surface_size};

verus! {

/// The raw value of the factor between the blur of a background image, times
/// the longer side of the image, and the sigma of the Gaussian blur.
pub const BLUR_FACTOR_RAW: i64 = 3277;

/// The raw value of the sigma that a scaled down image is blurred with.
pub const SIGMA_WHEN_SCALED_RAW: i64 = 131072;

/// What tells one blurred image from another: the image and how much it is
/// blurred.
#[derive(Clone, Copy, Debug, PartialEq, Eq, Structural)]
pub struct BlurKey {
    pub image: u64,
    pub blur: Fixed,
}

/// A blurred copy of a background image, kept for the frames to come.
pub struct BlurredImage {
    pub key: BlurKey,
    pub pixmap: tiny_skia::Pixmap,
}

/// An image that is to be blurred with a Gaussian blur of the given sigma.
/// The blurred pixels go into the cache under `key`.
pub struct BlurJob {
    pub key: BlurKey,
    pub pixels: Vec<u8>,
    pub width: u32,
    pub height: u32,
    pub sigma: Fixed,
}

/// What scaling an image to a new size with a triangle filter gives.
pub uninterp spec fn triangle_resized(
    pixels: Seq<u8>,
    width: u32,
    height: u32,
    new_width: u32,
    new_height: u32,
) -> Seq<u8>;

/// Whether the buffers that scaling to `new_width` by `new_height` goes
/// through can be addressed: one of sixteen bytes a pixel, as wide as the
/// image and as high as the result, and the result itself.
pub open spec fn can_resize(width: u32, new_width: u32, new_height: u32) -> bool {
    &&& 16 * width * new_height <= isize::MAX
    &&& 16 * new_width * new_height <= isize::MAX
}

/// `image::ImageBuffer::from_raw`, `image::imageops::resize` with
/// `FilterType::Triangle`, and `ImageBuffer::into_raw`: the pixels seen as an
/// image of the given size, scaled to the new size, as bytes again, four for
/// each pixel of the new size. The result depends on nothing but the
/// arguments. A buffer too large to address would panic.
#[verifier::external_body]
fn resize_triangle(pixels: &[u8], width: u32, height: u32, new_width: u32, new_height: u32) -> (r:
    Vec<u8>)
    requires
        width > 0,
        height > 0,
        new_width > 0,
        new_height > 0,
        pixels@.len() == surface_len(width, height),
        can_resize(width, new_width, new_height),
    ensures
        r@ == triangle_resized(pixels@, width, height, new_width, new_height),
        r@.len() == surface_len(new_width, new_height),
{
    let source = image::ImageBuffer::<image::Rgba<u8>, &[u8]>::from_raw(width, height, pixels).unwrap();
    image::imageops::resize(
        &source,
        new_width,
        new_height,
        image::imageops::FilterType::Triangle,
    ).into_raw()
}

/// The key of the blurred image that a background calls for: none unless
/// the background is an image with a blur that is not zero.
pub open spec fn wanted_key(background: Option<Background>) -> Option<BlurKey> {
    match background {
        Some(Background::Image(image, _)) => if image.blur.raw != 0 {
            Some(BlurKey { image: image.image.id, blur: image.blur })
        } else {
            None
        },
        _ => None,
    }
}

/// Whether a background calls for a blurred image that the cache, holding
/// what is kept under `cached`, does not have.
pub open spec fn needs_blur(cached: Option<BlurKey>, background: Option<Background>) -> bool {
    wanted_key(background) matches Some(key) && cached != Some(key)
}

/// The sigma of the blur of an image of the given size: the blur times the
/// longer side, times the blur factor.
pub open spec fn spec_blur_sigma(blur: Fixed, width: u32, height: u32) -> Fixed {
    let side = if width >= height {
        width
    } else {
        height
    };
    Fixed { raw: BLUR_FACTOR_RAW }.spec_times(blur).spec_times(Fixed::spec_from_int(side as int))
}

/// Whether an image is scaled down before it is blurred: where the sigma
/// that stands for the blur on the scaled image, two, is less than the sigma.
/// A sigma below zero scales down as well, to a single pixel.
pub open spec fn scales_down(sigma: Fixed) -> bool {
    sigma.raw > SIGMA_WHEN_SCALED_RAW || sigma.raw < 0
}

/// A side of the scaled down image: the side times two over sigma, rounded
/// down, and one pixel at least.
pub open spec fn spec_scaled_side(side: u32, sigma: Fixed) -> u32 {
    if sigma.raw <= SIGMA_WHEN_SCALED_RAW {
        1
    } else {
        let scaled = (SIGMA_WHEN_SCALED_RAW * side) / (sigma.raw as int);
        if scaled < 1 {
            1
        } else {
            scaled as u32
        }
    }
}

/// What is blurred for an image with the given pixels and size, and with
/// which sigma: the image itself, or, where the sigma is above two and the
/// scaled image can be addressed, the image scaled down by two over sigma,
/// with a sigma of two.
pub open spec fn blur_input(pixels: Seq<u8>, width: u32, height: u32, blur: Fixed) -> (
    Seq<u8>,
    u32,
    u32,
    Fixed,
) {
    let sigma = spec_blur_sigma(blur, width, height);
    let new_width = spec_scaled_side(width, sigma);
    let new_height = spec_scaled_side(height, sigma);
    if scales_down(sigma) && can_resize(width, new_width, new_height) {
        (
            triangle_resized(pixels, width, height, new_width, new_height),
            new_width,
            new_height,
            Fixed { raw: SIGMA_WHEN_SCALED_RAW },
        )
    } else {
        (pixels, width, height, sigma)
    }
}

/// Whether a job is the one that gives the blurred image for a background:
/// it is kept under the key that the background calls for, and holds what is
/// blurred for the background's image, four bytes for each pixel of a size
/// that a surface can have.
pub open spec fn is_job_for(job: BlurJob, background: Option<Background>) -> bool {
    &&& background matches Some(Background::Image(image, _))
    &&& Some(job.key) == wanted_key(background)
    &&& (job.pixels@, job.width, job.height, job.sigma) == blur_input(
        image.image.image.bytes(),
        image.image.image.spec_width(),
        image.image.image.spec_height(),
        image.blur,
    )
    &&& job.pixels@.len() == surface_len(job.width, job.height)
    &&& valid_surface_size(job.width, job.height)
}

/// What the cache holds once it has been brought in line with a background:
/// what it held where that is the blurred image that the background calls
/// for, and nothing else.
pub open spec fn updated_cache(
    cache: Option<BlurredImage>,
    background: Option<Background>,
) -> Option<BlurredImage> {
    if wanted_key(background) is Some && cached_key(cache) == wanted_key(background) {
        cache
    } else {
        None
    }
}

/// What a cache is kept under.
pub open spec fn cached_key(cache: Option<BlurredImage>) -> Option<BlurKey> {
    match cache {
        Some(blurred) => Some(blurred.key),
        None => None,
    }
}

/// The sigma of the blur of an image of the given size.
pub fn blur_sigma(blur: Fixed, width: u32, height: u32) -> (r: Fixed)
    ensures
        r == spec_blur_sigma(blur, width, height),
{
    let side = if width >= height {
        width
    } else {
        height
    };
    Fixed { raw: BLUR_FACTOR_RAW }.times(blur).times(Fixed::from_int(side as i64))
}

/// A side of the scaled down image.
pub fn scaled_side(side: u32, sigma: Fixed) -> (r: u32)
    ensures
        r == spec_scaled_side(side, sigma),
        r >= 1,
        side >= 1 ==> r <= side,
{
    if sigma.raw <= SIGMA_WHEN_SCALED_RAW {
        1
    } else {
        let product: i128 = SIGMA_WHEN_SCALED_RAW as i128 * side as i128;
        let scaled: i128 = product / (sigma.raw as i128);
        proof {
            let p = product as int;
            let s = sigma.raw as int;
            assert(p / s <= side as int) by (nonlinear_arith)
                requires
                    p == SIGMA_WHEN_SCALED_RAW * side,
                    s > SIGMA_WHEN_SCALED_RAW,
                    side >= 0,
            ;
        }
        if scaled < 1 {
            1
        } else {
            scaled as u32
        }
    }
}

fn fits_resize(width: u32, new_width: u32, new_height: u32) -> (r: bool)
    ensures
        r == can_resize(width, new_width, new_height),
{
    let limit: u128 = isize::MAX as u128;
    assert(16 * width * new_height <= 16 * 0xffff_ffff * 0xffff_ffff) by (nonlinear_arith)
        requires
            0 <= width <= 0xffff_ffff,
            0 <= new_height <= 0xffff_ffff,
    ;
    assert(16 * new_width * new_height <= 16 * 0xffff_ffff * 0xffff_ffff) by (nonlinear_arith)
        requires
            0 <= new_width <= 0xffff_ffff,
            0 <= new_height <= 0xffff_ffff,
    ;
    16 * (width as u128) * (new_height as u128) <= limit && 16 * (new_width as u128) * (
    new_height as u128) <= limit
}

/// Brings the cache of the blurred background image in line with a
/// background.
///
/// A background that is no image, or an image without blur, empties the
/// cache. For a blurred image that the cache holds already nothing happens.
/// For any other the cache is emptied, so that no image blurred for another
/// background can be painted, and the job comes back that gives the blurred
/// image: its result goes to `store_blurred`.
pub fn update_blurred_background_image(
    background: &Option<Background>,
    cache: &mut Option<BlurredImage>,
) -> (job: Option<BlurJob>)
    ensures
        *final(cache) == updated_cache(*old(cache), *background),
        needs_blur(cached_key(*old(cache)), *background) ==> *final(cache) is None,
        job is Some <==> needs_blur(cached_key(*old(cache)), *background),
        job matches Some(job) ==> is_job_for(job, *background),
{
    match background {
        Some(Background::Image(image, _)) => {
            if image.blur.raw != 0 {
                let key = BlurKey { image: image.image.id, blur: image.blur };
                let cached = match cache {
                    Some(blurred) => blurred.key == key,
                    None => false,
                };
                if cached {
                    return None;
                }
                *cache = None;
                let source = &image.image.image;
                let width = source.width();
                let height = source.height();
                let data = source.data();
                let sigma = blur_sigma(image.blur, width, height);
                let new_width = scaled_side(width, sigma);
                let new_height = scaled_side(height, sigma);
                let scales = sigma.raw > SIGMA_WHEN_SCALED_RAW || sigma.raw < 0;
                if scales && fits_resize(width, new_width, new_height) {
                    assert(4 * new_width * new_height <= 4 * width * height) by (nonlinear_arith)
                        requires
                            0 <= new_width <= width,
                            0 <= new_height <= height,
                    ;
                    let pixels = resize_triangle(data, width, height, new_width, new_height);
                    Some(
                        BlurJob {
                            key,
                            pixels,
                            width: new_width,
                            height: new_height,
                            sigma: Fixed { raw: SIGMA_WHEN_SCALED_RAW },
                        },
                    )
                } else {
                    let pixels = slice_to_vec(data);
                    Some(BlurJob { key, pixels, width, height, sigma })
                }
            } else {
                *cache = None;
                None
            }
        },
        _ => {
            *cache = None;
            None
        },
    }
}

/// Puts a blurred image into the cache, in place of what was there. Nothing
/// is kept, and the cache stays as it was, where the bytes are not four for
/// each pixel of a size that a surface can have.
pub fn store_blurred(
    cache: &mut Option<BlurredImage>,
    key: BlurKey,
    pixels: Vec<u8>,
    width: u32,
    height: u32,
) -> (stored: bool)
    ensures
        stored <==> valid_surface_size(width, height) && pixels@.len() == surface_len(width, height),
        stored ==> (*final(cache) matches Some(blurred) && blurred.key == key && pixmap_bytes(
            blurred.pixmap,
        ) == pixels@ && pixmap_size(blurred.pixmap) == (width, height)),
        !stored ==> *final(cache) == *old(cache),
{
    match pixmap_from_vec(pixels, width, height) {
        Some(pixmap) => {
            *cache = Some(BlurredImage { key, pixmap });
            true
        },
        None => false,
    }
}

/// A background whose image and blur are those that the cache holds needs no
/// new blurred image. One with another blur that is not zero, or with
/// another image, needs one.
pub proof fn lemma_blur_key_exact(cached: BlurKey, background: Option<Background>)
    ensures
        wanted_key(background) == Some(cached) ==> !needs_blur(Some(cached), background),
        (background matches Some(Background::Image(image, _)) && image.blur.raw != 0 && (image.blur
            != cached.blur || image.image.id != cached.image)) ==> needs_blur(
            Some(cached),
            background,
        ),
{
}

} // verus!
