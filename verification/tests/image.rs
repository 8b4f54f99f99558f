use image::codecs::png::PngEncoder;
use image::hooks::{register_decoding_hook, register_format_detection_hook};
use image::{ColorType, ExtendedColorType, ImageDecoder, ImageEncoder, ImageResult};
use livesplit_render::fixed::Fixed;
use livesplit_render::image::{create_image, image_from_rgba, premultiply};

fn png(pixels: &[u8], width: u32, height: u32) -> Vec<u8> {
    let mut encoded = Vec::new();
    PngEncoder::new(&mut encoded)
        .write_image(pixels, width, height, ExtendedColorType::Rgba8)
        .unwrap();
    encoded
}

#[test]
fn premultiply_scales_by_alpha() {
    let mut pixels = vec![255, 128, 0, 128, 10, 20, 30, 40, 200, 100, 50, 0];
    premultiply(&mut pixels);
    assert_eq!(pixels, vec![128, 64, 0, 128, 1, 3, 4, 40, 0, 0, 0, 0]);
}

#[test]
fn premultiply_keeps_opaque_pixels() {
    let mut pixels = vec![255, 128, 0, 255, 1, 2, 3, 255, 254, 253, 252, 255];
    let before = pixels.clone();
    premultiply(&mut pixels);
    assert_eq!(pixels, before);
}

#[test]
fn premultiply_half_transparent_uniform_color() {
    let mut pixels = Vec::new();
    for _ in 0..16 {
        pixels.extend_from_slice(&[200, 100, 50, 128]);
    }
    premultiply(&mut pixels);
    for pixel in pixels.chunks(4) {
        assert_eq!(pixel, &[100, 50, 25, 128]);
    }
}

#[test]
fn premultiply_rounds_down() {
    let mut pixels = vec![255, 254, 1, 254, 3, 3, 3, 85];
    premultiply(&mut pixels);
    assert_eq!(pixels, vec![254, 253, 0, 254, 1, 1, 1, 85]);
}

#[test]
fn premultiply_nothing() {
    let mut pixels: Vec<u8> = Vec::new();
    premultiply(&mut pixels);
    assert!(pixels.is_empty());
}

#[test]
fn image_from_pixels() {
    let image = image_from_rgba(vec![255, 0, 0, 255, 0, 255, 0, 128], 2, 1).unwrap();
    assert_eq!(image.width(), 2);
    assert_eq!(image.height(), 1);
    assert_eq!(image.data(), &[255, 0, 0, 255, 0, 128, 0, 128]);
    assert_eq!(image.pixmap().width(), 2);
    assert_eq!(image.aspect_ratio(), Fixed::from_int(2));
}

#[test]
fn aspect_ratio_is_width_over_height() {
    let image = image_from_rgba(vec![0; 4 * 3 * 4], 3, 4).unwrap();
    assert_eq!(image.aspect_ratio(), Fixed::from_ratio(3, 4));
    assert_eq!(image.aspect_ratio().raw, 49152);
}

#[test]
fn no_image_of_a_size_that_does_not_fit() {
    assert!(image_from_rgba(vec![0; 8], 0, 2).is_none());
    assert!(image_from_rgba(vec![0; 8], 2, 0).is_none());
    assert!(image_from_rgba(Vec::new(), 0, 0).is_none());
    assert!(image_from_rgba(vec![0; 8], 1, 1).is_none());
    assert!(image_from_rgba(vec![0; 8], 3, 1).is_none());
    assert!(image_from_rgba(vec![0; 7], 2, 1).is_none());
    assert!(image_from_rgba(vec![0; 8], 536_870_912, 1).is_none());
}

#[test]
fn create_image_decodes_and_premultiplies() {
    let encoded = png(&[255, 128, 0, 128, 9, 8, 7, 255, 1, 2, 3, 0, 255, 255, 255, 1], 2, 2);
    let image = create_image(&encoded).unwrap();
    assert_eq!(image.width(), 2);
    assert_eq!(image.height(), 2);
    assert_eq!(image.data(), &[128, 64, 0, 128, 9, 8, 7, 255, 0, 0, 0, 0, 1, 1, 1, 1]);
}

#[test]
fn create_image_keeps_an_opaque_image() {
    let mut pixels = Vec::new();
    for i in 0..12u8 {
        pixels.extend_from_slice(&[i * 20, 255 - i * 20, i, 255]);
    }
    let image = create_image(&png(&pixels, 4, 3)).unwrap();
    assert_eq!(image.width(), 4);
    assert_eq!(image.height(), 3);
    assert_eq!(image.data(), &pixels[..]);
}

#[test]
fn create_image_rejects_what_is_no_image() {
    assert!(create_image(&[]).is_none());
    assert!(create_image(b"certainly not an image").is_none());
    let mut encoded = png(&[1, 2, 3, 255], 1, 1);
    encoded.truncate(20);
    assert!(create_image(&encoded).is_none());
}

// A decoder that makes a single white pixel of whatever it is given.
struct WhitePixel;

impl ImageDecoder for WhitePixel {
    fn dimensions(&self) -> (u32, u32) {
        (1, 1)
    }

    fn color_type(&self) -> ColorType {
        ColorType::Rgba8
    }

    fn read_image(self, buf: &mut [u8]) -> ImageResult<()> {
        buf[..4].copy_from_slice(&[255, 255, 255, 255]);
        Ok(())
    }

    fn read_image_boxed(self: Box<Self>, buf: &mut [u8]) -> ImageResult<()> {
        (*self).read_image(buf)
    }
}

#[test]
fn create_image_asks_no_decoder_that_was_registered_later() {
    let pixels = [10, 20, 30, 255, 40, 50, 60, 255];
    let encoded = png(&pixels, 2, 1);
    let made_up = b"WHITEPIXEL and nothing else";
    let before = create_image(&encoded).unwrap().data().to_vec();
    assert_eq!(before, pixels);
    assert!(create_image(made_up).is_none());

    assert!(register_decoding_hook(
        "whitepixel".into(),
        Box::new(|_| Ok(Box::new(WhitePixel))),
    ));
    register_format_detection_hook("whitepixel".into(), b"WHITEPIXEL", None);
    register_format_detection_hook("whitepixel".into(), &[0x89, b'P', b'N', b'G'], None);
    assert_eq!(image::load_from_memory(made_up).unwrap().to_rgba8().into_raw(), vec![255; 4]);
    assert_eq!(image::load_from_memory(&encoded).unwrap().to_rgba8().into_raw(), vec![255; 4]);

    let image = create_image(&encoded).unwrap();
    assert_eq!((image.width(), image.height()), (2, 1));
    assert_eq!(image.data(), &before[..]);
    assert!(create_image(made_up).is_none());
}
