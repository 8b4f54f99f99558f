use livesplit_render::blur::{
    blur_sigma, scaled_side, store_blurred, update_blurred_background_image, BlurKey,
    BlurredImage, BLUR_FACTOR_RAW, SIGMA_WHEN_SCALED_RAW,
};
use livesplit_render::fixed::Fixed;
use livesplit_render::image::image_from_rgba;
use livesplit_render::scene::{
    Background, BackgroundImage, Color, FillShader, ImageHandle, Transform,
};
use std::rc::Rc;

fn image_background(id: u64, width: u32, height: u32, blur: Fixed) -> Option<Background> {
    let mut pixels = Vec::new();
    for i in 0..(width * height) {
        pixels.extend_from_slice(&[(i % 251) as u8, (i % 7) as u8, 3, 255]);
    }
    let image = Rc::new(image_from_rgba(pixels, width, height).unwrap());
    Some(Background::Image(
        BackgroundImage {
            image: ImageHandle { id, image },
            brightness: Fixed::one(),
            opacity: Fixed::one(),
            blur,
        },
        Transform::identity(),
    ))
}

fn cached(key: BlurKey) -> Option<BlurredImage> {
    let mut cache = None;
    assert!(store_blurred(&mut cache, key, vec![9; 4], 1, 1));
    cache
}

#[test]
fn sigma_is_the_blur_times_the_longer_side_times_the_factor() {
    assert_eq!(BLUR_FACTOR_RAW, 3277);
    assert_eq!(blur_sigma(Fixed::one(), 100, 50).raw, 327700);
    assert_eq!(blur_sigma(Fixed::one(), 50, 100).raw, 327700);
    assert_eq!(blur_sigma(Fixed::from_ratio(1, 10), 100, 100).raw, 32700);
    assert_eq!(blur_sigma(Fixed::zero(), 100, 100).raw, 0);
    assert_eq!(blur_sigma(Fixed::from_int(-1), 100, 50).raw, -327700);
}

#[test]
fn a_side_is_scaled_by_two_over_sigma() {
    assert_eq!(SIGMA_WHEN_SCALED_RAW, 131072);
    let sigma = Fixed::from_raw(327700);
    assert_eq!(scaled_side(100, sigma), 39);
    assert_eq!(scaled_side(50, sigma), 19);
    assert_eq!(scaled_side(4, Fixed::from_int(4)), 2);
    assert_eq!(scaled_side(5, Fixed::from_int(4)), 2);
}

#[test]
fn a_scaled_side_is_one_pixel_at_least() {
    assert_eq!(scaled_side(1, Fixed::from_int(100)), 1);
    assert_eq!(scaled_side(2, Fixed::from_int(5)), 1);
    assert_eq!(scaled_side(100, Fixed::max_value()), 1);
    assert_eq!(scaled_side(100, Fixed::from_int(-3)), 1);
}

#[test]
fn no_blurred_image_without_an_image_background() {
    let key = BlurKey { image: 1, blur: Fixed::one() };
    let mut cache = cached(key);
    assert!(update_blurred_background_image(&None, &mut cache).is_none());
    assert!(cache.is_none());

    let white = Color { red: Fixed::one(), green: Fixed::one(), blue: Fixed::one(), alpha: Fixed::one() };
    let mut cache = cached(key);
    let shader = Some(Background::Shader(FillShader::SolidColor(white)));
    assert!(update_blurred_background_image(&shader, &mut cache).is_none());
    assert!(cache.is_none());
}

#[test]
fn no_blurred_image_without_blur() {
    let mut cache = cached(BlurKey { image: 1, blur: Fixed::one() });
    let background = image_background(1, 4, 4, Fixed::zero());
    assert!(update_blurred_background_image(&background, &mut cache).is_none());
    assert!(cache.is_none());
}

#[test]
fn a_small_blur_keeps_the_size() {
    let mut cache = None;
    let blur = Fixed::from_ratio(1, 10);
    let background = image_background(3, 100, 100, blur);
    let job = update_blurred_background_image(&background, &mut cache).unwrap();
    assert_eq!(job.key, BlurKey { image: 3, blur });
    assert_eq!((job.width, job.height), (100, 100));
    assert_eq!(job.sigma.raw, 32700);
    match &background {
        Some(Background::Image(image, _)) => assert_eq!(&job.pixels[..], image.image.image.data()),
        _ => unreachable!(),
    }
    assert!(cache.is_none());
}

#[test]
fn a_large_blur_scales_the_image_down() {
    let mut cache = None;
    let background = image_background(3, 100, 50, Fixed::one());
    let job = update_blurred_background_image(&background, &mut cache).unwrap();
    assert_eq!(job.key, BlurKey { image: 3, blur: Fixed::one() });
    assert_eq!((job.width, job.height), (39, 19));
    assert_eq!(job.pixels.len(), 4 * 39 * 19);
    assert_eq!(job.sigma, Fixed::from_int(2));
    assert!(job.pixels.chunks(4).all(|pixel| pixel[3] == 255 && pixel[2] == 3));
    assert!(cache.is_none());
}

#[test]
fn a_sigma_of_two_does_not_scale() {
    let mut cache = None;
    let blur = Fixed::from_raw(2621);
    assert_eq!(blur_sigma(blur, 1000, 10).raw, 131000);
    let background = image_background(3, 1000, 10, blur);
    let job = update_blurred_background_image(&background, &mut cache).unwrap();
    assert_eq!((job.width, job.height), (1000, 10));
    assert_eq!(job.sigma.raw, 131000);
}

#[test]
fn a_negative_blur_scales_down_to_one_pixel() {
    let mut cache = None;
    let background = image_background(3, 8, 4, Fixed::from_int(-1));
    let job = update_blurred_background_image(&background, &mut cache).unwrap();
    assert_eq!((job.width, job.height), (1, 1));
    assert_eq!(job.pixels.len(), 4);
    assert_eq!(job.sigma, Fixed::from_int(2));
}

#[test]
fn the_same_image_and_blur_are_not_blurred_again() {
    let blur = Fixed::from_ratio(1, 2);
    let background = image_background(3, 20, 20, blur);
    let mut cache = None;
    let job = update_blurred_background_image(&background, &mut cache).unwrap();
    let (width, height) = (job.width, job.height);
    assert!(store_blurred(&mut cache, job.key, job.pixels, width, height));
    for _ in 0..3 {
        assert!(update_blurred_background_image(&background, &mut cache).is_none());
        let kept = cache.as_ref().unwrap();
        assert_eq!(kept.key, BlurKey { image: 3, blur });
        assert_eq!((kept.pixmap.width(), kept.pixmap.height()), (width, height));
    }
}

#[test]
fn another_blur_is_blurred_anew() {
    let blur = Fixed::from_ratio(1, 2);
    let mut cache = cached(BlurKey { image: 3, blur });
    let nearby = Fixed::from_raw(blur.raw + 1);
    let background = image_background(3, 20, 20, nearby);
    let job = update_blurred_background_image(&background, &mut cache).unwrap();
    assert_eq!(job.key, BlurKey { image: 3, blur: nearby });
    assert!(cache.is_none());

    let mut cache = cached(BlurKey { image: 3, blur });
    let less = Fixed::from_raw(blur.raw - 1);
    let background = image_background(3, 20, 20, less);
    assert!(update_blurred_background_image(&background, &mut cache).is_some());
}

#[test]
fn another_image_is_blurred_anew() {
    let blur = Fixed::from_ratio(1, 2);
    let mut cache = cached(BlurKey { image: 3, blur });
    let background = image_background(4, 20, 20, blur);
    let job = update_blurred_background_image(&background, &mut cache).unwrap();
    assert_eq!(job.key, BlurKey { image: 4, blur });
    assert!(cache.is_none());
}

#[test]
fn a_job_that_is_not_done_is_handed_out_again() {
    let blur = Fixed::from_ratio(1, 2);
    let mut cache = cached(BlurKey { image: 3, blur: Fixed::one() });
    let background = image_background(3, 20, 20, blur);
    assert!(update_blurred_background_image(&background, &mut cache).is_some());
    assert!(cache.is_none());
    let job = update_blurred_background_image(&background, &mut cache).unwrap();
    assert!(cache.is_none());
    let (key, width, height) = (job.key, job.width, job.height);
    assert!(store_blurred(&mut cache, key, job.pixels, width, height));
    assert!(update_blurred_background_image(&background, &mut cache).is_none());
    assert_eq!(cache.as_ref().unwrap().key, BlurKey { image: 3, blur });
}

#[test]
fn brightness_and_opacity_are_no_part_of_the_key() {
    let blur = Fixed::from_ratio(1, 2);
    let mut cache = cached(BlurKey { image: 3, blur });
    let background = match image_background(3, 20, 20, blur) {
        Some(Background::Image(image, transform)) => Some(Background::Image(
            BackgroundImage {
                brightness: Fixed::from_ratio(1, 3),
                opacity: Fixed::from_ratio(2, 3),
                ..image
            },
            transform,
        )),
        _ => unreachable!(),
    };
    assert!(update_blurred_background_image(&background, &mut cache).is_none());
    assert!(cache.is_some());
}

#[test]
fn storing_checks_the_size() {
    let key = BlurKey { image: 1, blur: Fixed::one() };
    let mut cache = None;
    assert!(!store_blurred(&mut cache, key, vec![0; 8], 1, 1));
    assert!(cache.is_none());
    assert!(!store_blurred(&mut cache, key, vec![0; 8], 0, 2));
    assert!(!store_blurred(&mut cache, key, Vec::new(), 0, 0));
    assert!(store_blurred(&mut cache, key, vec![1, 2, 3, 4, 5, 6, 7, 8], 1, 2));
    let other = BlurKey { image: 2, blur: Fixed::one() };
    assert!(!store_blurred(&mut cache, other, vec![0; 8], 3, 1));
    let kept = cache.as_ref().unwrap();
    assert_eq!(kept.key, key);
    assert_eq!(kept.pixmap.data(), &[1, 2, 3, 4, 5, 6, 7, 8]);
    assert_eq!((kept.pixmap.width(), kept.pixmap.height()), (1, 2));
}
