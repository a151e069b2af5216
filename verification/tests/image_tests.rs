use raytracer::RenderImage;

#[test]
fn new_solid_fills_every_pixel() {
    let image = RenderImage::new_solid(4, 3, [10, 20, 30]);
    assert_eq!(image.width(), 4);
    assert_eq!(image.height(), 3);
    assert_eq!(image.as_rgb8().len(), 4 * 3 * 3);
    for pixel in image.as_rgb8().chunks_exact(3) {
        assert_eq!(pixel, [10, 20, 30]);
    }
    assert_eq!(image.pixel_rgb8(3, 2), [10, 20, 30]);
}

#[test]
fn set_pixel_then_read_it_back() {
    let mut image = RenderImage::new_solid(3, 2, [0, 0, 0]);
    image.set_pixel_rgb8(2, 1, [1, 2, 3]);
    assert_eq!(image.pixel_rgb8(2, 1), [1, 2, 3]);
    assert_eq!(image.pixel_rgb8(1, 1), [0, 0, 0]);
    assert_eq!(image.pixel_rgb8(2, 0), [0, 0, 0]);
    // Row-major layout: pixel (2, 1) starts at byte (1 * 3 + 2) * 3.
    assert_eq!(&image.as_rgb8()[15..18], &[1, 2, 3]);
}

#[test]
fn setting_one_pixel_leaves_the_others() {
    let mut image = RenderImage::new_solid(2, 2, [9, 9, 9]);
    image.set_pixel_rgb8(0, 0, [5, 6, 7]);
    image.set_pixel_rgb8(1, 1, [1, 1, 1]);
    assert_eq!(image.pixel_rgb8(0, 0), [5, 6, 7]);
    assert_eq!(image.pixel_rgb8(1, 0), [9, 9, 9]);
    assert_eq!(image.pixel_rgb8(0, 1), [9, 9, 9]);
    assert_eq!(image.pixel_rgb8(1, 1), [1, 1, 1]);
}

#[test]
fn empty_image_has_no_bytes() {
    let image = RenderImage::new_solid(0, 7, [1, 2, 3]);
    assert_eq!(image.width(), 0);
    assert_eq!(image.height(), 7);
    assert!(image.as_rgb8().is_empty());
}
