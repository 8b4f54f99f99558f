use vstd::prelude::*;
use crate::fixed::Fixed;
use crate::surface::{
    pixmap_bytes, pixmap_from_vec, pixmap_size, surface_len, valid_surface_size, well_formed,
};

verus! {

/// What decoding an encoded image gives: the pixels, four bytes each with
/// straight alpha, then the width and the height; none for bytes that are no
/// image in a format that is built in.
pub uninterp spec fn decoded_rgba(data: Seq<u8>) -> Option<(Seq<u8>, u32, u32)>;

/// `image::guess_format`, `image::load_from_memory_with_format`, then
/// `DynamicImage::to_rgba8` and `ImageBuffer::into_raw`: finds the format by
/// the magic bytes at the start, decodes with the built-in decoder of that
/// format, converts to RGBA with 8 bits a channel and hands out the buffer.
/// Bytes of no known format and a decoding error give none. All of them read
/// the bytes and nothing else: the format is set outright, so that the hooks
/// that a process can register for other formats are never asked.
#[verifier::external_body]
fn decode_rgba(data: &[u8]) -> (r: Option<(Vec<u8>, u32, u32)>)
    ensures
        match r {
            Some((pixels, width, height)) => decoded_rgba(data@) == Some((pixels@, width, height)),
            None => decoded_rgba(data@) is None,
        },
{
    let format = image::guess_format(data).ok()?;
    let buffer = image::load_from_memory_with_format(data, format).ok()?.to_rgba8();
    let (width, height) = (buffer.width(), buffer.height());
    Some((buffer.into_raw(), width, height))
}

/// `bytemuck::cast_slice_mut`: the same memory seen as pixels of four bytes.
/// What is written to a pixel is written to its four bytes. A length that is
/// no multiple of four would panic.
#[verifier::external_body]
fn as_pixels_mut(bytes: &mut [u8]) -> (pixels: &mut [[u8; 4]])
    requires
        old(bytes)@.len() % 4 == 0,
    ensures
        pixels@.len() * 4 == old(bytes)@.len(),
        forall|i: int, k: int|
            0 <= i < pixels@.len() && 0 <= k < 4 ==> (#[trigger] pixels@[i][k]) == old(bytes)@[4 * i
                + k],
        final(pixels)@.len() * 4 == final(bytes)@.len(),
        forall|i: int, k: int|
            0 <= i < final(pixels)@.len() && 0 <= k < 4 ==> (#[trigger] final(pixels)@[i][k])
                == final(bytes)@[4 * i + k],
{
    bytemuck::cast_slice_mut(bytes)
}

/// A color channel scaled by the pixel's alpha, rounded down.
pub open spec fn premultiplied_channel(channel: u8, alpha: u8) -> u8 {
    ((channel as int * alpha as int) / 255) as u8
}

/// The pixels with each color channel scaled by the alpha of its pixel. The
/// alpha channel stays.
pub open spec fn premultiplied(pixels: Seq<u8>) -> Seq<u8> {
    Seq::new(
        pixels.len(),
        |i: int|
            if i % 4 == 3 {
                pixels[i]
            } else {
                premultiplied_channel(pixels[i], pixels[i - i % 4 + 3])
            },
    )
}

fn premultiply_channel(channel: u8, alpha: u8) -> (r: u8)
    ensures
        r == premultiplied_channel(channel, alpha),
{
    assert(channel as int * alpha as int <= 255 * 255) by (nonlinear_arith)
        requires
            0 <= channel as int <= 255,
            0 <= alpha as int <= 255,
    ;
    assert(0 <= channel as int * alpha as int) by (nonlinear_arith)
        requires
            0 <= channel as int,
            0 <= alpha as int,
    ;
    ((channel as u16 * alpha as u16) / 255) as u8
}

/// Turns pixels with straight alpha into pixels with premultiplied alpha, in
/// place.
pub fn premultiply(pixels: &mut [u8])
    requires
        old(pixels)@.len() % 4 == 0,
    ensures
        final(pixels)@ == premultiplied(old(pixels)@),
{
    let quads = as_pixels_mut(pixels);
    let ghost before = quads@;
    let n: usize = quads.len();
    let mut i: usize = 0;
    while i < n
        invariant
            i <= n,
            quads@.len() == n,
            before.len() == n,
            forall|j: int, k: int|
                i <= j < n && 0 <= k < 4 ==> (#[trigger] quads@[j][k]) == before[j][k],
            forall|j: int, k: int|
                0 <= j < i && 0 <= k < 3 ==> (#[trigger] quads@[j][k]) == premultiplied_channel(
                    before[j][k],
                    before[j][3],
                ),
            forall|j: int| 0 <= j < i ==> (#[trigger] quads@[j])[3] == before[j][3],
        decreases n - i,
    {
        let quad = quads[i];
        let alpha = quad[3];
        let red = premultiply_channel(quad[0], alpha);
        let green = premultiply_channel(quad[1], alpha);
        let blue = premultiply_channel(quad[2], alpha);
        quads[i] = [red, green, blue, alpha];
        i += 1;
    }
    proof {
        let after = premultiplied(old(pixels)@);
        assert(final(pixels)@.len() == after.len());
        assert forall|b: int| 0 <= b < after.len() implies final(pixels)@[b] == after[b] by {
            let j = b / 4;
            let k = b % 4;
            assert(b == 4 * j + k);
            assert(quads@[j][k] == final(pixels)@[4 * j + k]);
            assert(before[j][k] == old(pixels)@[4 * j + k]);
            assert(before[j][3] == old(pixels)@[4 * j + 3]);
            if k == 3 {
                assert(quads@[j][3] == before[j][3]);
            }
        }
        assert(final(pixels)@ =~= after);
    }
}

/// A fully opaque pixel keeps its color channels.
pub proof fn lemma_premultiply_keeps_opaque(pixels: Seq<u8>, i: int)
    requires
        0 <= i < pixels.len(),
        pixels.len() % 4 == 0,
        pixels[i - i % 4 + 3] == 255,
    ensures
        premultiplied(pixels)[i] == pixels[i],
{
}

/// Each color channel comes out as the channel times the fraction that the
/// pixel's alpha is of 255, rounded down; the alpha channel stays.
pub proof fn lemma_premultiply_scales(pixels: Seq<u8>, i: int)
    requires
        0 <= i < pixels.len(),
        pixels.len() % 4 == 0,
    ensures
        i % 4 == 3 ==> premultiplied(pixels)[i] == pixels[i],
        i % 4 != 3 ==> ({
            let alpha = pixels[i - i % 4 + 3] as int;
            let scaled = premultiplied(pixels)[i] as int;
            &&& 255 * scaled <= pixels[i] * alpha < 255 * (scaled + 1)
            &&& scaled <= alpha
            &&& scaled <= pixels[i]
        }),
{
    if i % 4 != 3 {
        let alpha = pixels[i - i % 4 + 3] as int;
        let channel = pixels[i] as int;
        assert(0 <= channel * alpha <= 255 * alpha && channel * alpha <= 255 * channel)
            by (nonlinear_arith)
            requires
                0 <= channel <= 255,
                0 <= alpha <= 255,
        ;
    }
}

/// A decoded image: pixels with premultiplied alpha in a surface of the
/// image's size.
pub struct Image {
    pixmap: tiny_skia::Pixmap,
}

impl Image {
    #[verifier::type_invariant]
    spec fn holds_every_pixel(self) -> bool {
        well_formed(self.pixmap)
    }

    /// The bytes of the image, four to a pixel.
    pub closed spec fn bytes(&self) -> Seq<u8> {
        pixmap_bytes(self.pixmap)
    }

    /// The width in pixels.
    pub closed spec fn spec_width(&self) -> u32 {
        pixmap_size(self.pixmap).0
    }

    /// The height in pixels.
    pub closed spec fn spec_height(&self) -> u32 {
        pixmap_size(self.pixmap).1
    }

    /// The width in pixels, never zero.
    pub fn width(&self) -> (r: u32)
        ensures
            r == self.spec_width(),
            r > 0,
    {
        proof {
            use_type_invariant(self);
        }
        self.pixmap.width()
    }

    /// The height in pixels, never zero.
    pub fn height(&self) -> (r: u32)
        ensures
            r == self.spec_height(),
            r > 0,
    {
        proof {
            use_type_invariant(self);
        }
        self.pixmap.height()
    }

    /// The surface that holds the pixels.
    pub fn pixmap(&self) -> (r: &tiny_skia::Pixmap)
        ensures
            pixmap_bytes(*r) == self.bytes(),
            pixmap_size(*r) == (self.spec_width(), self.spec_height()),
            well_formed(*r),
    {
        proof {
            use_type_invariant(self);
        }
        &self.pixmap
    }

    /// The bytes of the image, four to a pixel.
    pub fn data(&self) -> (r: &[u8])
        ensures
            r@ == self.bytes(),
            r@.len() == surface_len(self.spec_width(), self.spec_height()),
            valid_surface_size(self.spec_width(), self.spec_height()),
    {
        proof {
            use_type_invariant(self);
        }
        self.pixmap.data()
    }

    /// The width divided by the height.
    pub fn aspect_ratio(&self) -> (r: Fixed)
        ensures
            r == Fixed::spec_from_ratio(self.spec_width() as int, self.spec_height() as int),
    {
        proof {
            use_type_invariant(self);
        }
        Fixed::from_ratio(self.pixmap.width() as i64, self.pixmap.height())
    }
}

/// Makes an image out of decoded pixels with straight alpha. There is none
/// for a size that no surface can have, nor where the number of bytes is not
/// four for each pixel.
pub fn image_from_rgba(pixels: Vec<u8>, width: u32, height: u32) -> (r: Option<Image>)
    ensures
        r is Some <==> valid_surface_size(width, height) && pixels@.len() == surface_len(
            width,
            height,
        ),
        r matches Some(image) ==> image.bytes() == premultiplied(pixels@) && image.spec_width()
            == width && image.spec_height() == height,
{
    let mut pixels = pixels;
    if pixels.len() % 4 != 0 {
        assert(surface_len(width, height) == 4 * (width as int * height as int))
            by (nonlinear_arith);
        return None;
    }
    premultiply(pixels.as_mut_slice());
    match pixmap_from_vec(pixels, width, height) {
        Some(pixmap) => Some(Image { pixmap }),
        None => None,
    }
}

/// What `create_image` makes of encoded bytes.
pub open spec fn created_image(data: Seq<u8>) -> Option<(Seq<u8>, u32, u32)> {
    match decoded_rgba(data) {
        Some((pixels, width, height)) => if valid_surface_size(width, height) && pixels.len()
            == surface_len(width, height) {
            Some((premultiplied(pixels), width, height))
        } else {
            None
        },
        None => None,
    }
}

/// Decodes an encoded image and premultiplies its pixels. There is none for
/// bytes that cannot be decoded and for an image of a size that no surface can
/// have.
pub fn create_image(data: &[u8]) -> (r: Option<Image>)
    ensures
        match r {
            Some(image) => created_image(data@) == Some(
                (image.bytes(), image.spec_width(), image.spec_height()),
            ),
            None => created_image(data@) is None,
        },
        r matches Some(image) ==> (decoded_rgba(data@) matches Some((pixels, width, height))
            && image.bytes() == premultiplied(pixels) && image.spec_width() == width
            && image.spec_height() == height),
{
    match decode_rgba(data) {
        Some((pixels, width, height)) => image_from_rgba(pixels, width, height),
        None => None,
    }
}

} // verus!
