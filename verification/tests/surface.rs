use livesplit_render::surface::{
    checked_surface_len, clear, copy_range, is_well_formed, MAX_WIDTH,
};
use tiny_skia::{Pixmap, PixmapRef};

#[test]
fn the_length_of_a_surface() {
    assert_eq!(MAX_WIDTH, 536_870_911);
    assert_eq!(checked_surface_len(100, 50), Some(20_000));
    assert_eq!(checked_surface_len(1, 1), Some(4));
    assert_eq!(checked_surface_len(MAX_WIDTH, 1), Some(2_147_483_644));
    assert_eq!(checked_surface_len(0, 50), None);
    assert_eq!(checked_surface_len(100, 0), None);
    assert_eq!(checked_surface_len(MAX_WIDTH + 1, 1), None);
    assert_eq!(checked_surface_len(u32::MAX, u32::MAX), None);
}

#[test]
fn a_pixmap_of_its_own_making_is_well_formed() {
    assert!(is_well_formed(&Pixmap::new(3, 2).unwrap()));
    let longer = PixmapRef::from_bytes(&[0; 40], 3, 2).unwrap().to_owned();
    assert!(!is_well_formed(&longer));
}

#[test]
fn clearing_zeroes_every_byte() {
    let mut pixmap = Pixmap::new(2, 2).unwrap();
    for (i, byte) in pixmap.data_mut().iter_mut().enumerate() {
        *byte = i as u8 + 1;
    }
    clear(&mut pixmap);
    assert_eq!(pixmap.data(), &[0; 16]);
    assert_eq!((pixmap.width(), pixmap.height()), (2, 2));
}

#[test]
fn copying_a_range_leaves_the_rest() {
    let source = [1, 2, 3, 4, 5, 6];
    let mut target = [9; 6];
    copy_range(&mut target, &source, 2, 5);
    assert_eq!(target, [9, 9, 3, 4, 5, 9]);
    copy_range(&mut target, &source, 3, 3);
    assert_eq!(target, [9, 9, 3, 4, 5, 9]);
    copy_range(&mut target, &source, 0, 6);
    assert_eq!(target, source);
    let mut shorter = [9; 4];
    copy_range(&mut shorter, &source, 1, 4);
    assert_eq!(shorter, [9, 2, 3, 4]);
}
