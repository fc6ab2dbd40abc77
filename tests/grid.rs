use raymarch::image::Image;

#[test]
fn new_fills_every_pixel() {
    let img = Image::new(3, 2, 7u8);
    assert_eq!(img.width, 3);
    assert_eq!(img.height, 2);
    assert_eq!(img.pixels, vec![7u8; 6]);
}

#[test]
fn new_empty_grid() {
    let img = Image::new(0, 5, 1u8);
    assert_eq!(img.pixels.len(), 0);
}

#[test]
fn index_is_row_major() {
    let img = Image::new(4, 3, 0u8);
    assert_eq!(img.index_of(0, 0), 0);
    assert_eq!(img.index_of(0, 3), 3);
    assert_eq!(img.index_of(1, 0), 4);
    assert_eq!(img.index_of(2, 3), 11);
}

#[test]
fn set_changes_one_pixel() {
    let mut img = Image::new(3, 2, 0u32);
    img.set(1, 2, 9);
    assert_eq!(*img.get(1, 2), 9);
    assert_eq!(img.pixels, vec![0, 0, 0, 0, 0, 9]);
}

#[test]
fn from_pixels_checks_length() {
    assert!(Image::from_pixels(2, 2, vec![1u8, 2, 3]).is_none());
    let img = Image::from_pixels(2, 2, vec![1u8, 2, 3, 4]).unwrap();
    assert_eq!(*img.get(0, 1), 2);
    assert_eq!(*img.get(1, 0), 3);
    assert!(Image::from_pixels(usize::MAX, 2, Vec::<u8>::new()).is_none());
}
