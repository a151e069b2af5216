use raytracer::render::DEFAULT_MAX_REFLECTION_DEPTH;
use raytracer::{HitObject, RenderConfig, Renderer};

#[test]
fn config_new_uses_default_depth() {
    let config = RenderConfig::new(3, 4);
    assert_eq!(config.image_width, 3);
    assert_eq!(config.image_height, 4);
    assert_eq!(config.max_reflection_depth, DEFAULT_MAX_REFLECTION_DEPTH);
    assert_eq!(DEFAULT_MAX_REFLECTION_DEPTH, 4);
}

#[test]
fn config_with_depth_and_default() {
    let config = RenderConfig::with_max_reflection_depth(3, 3, 1);
    assert_eq!(config.max_reflection_depth, 1);
    let default = RenderConfig::default();
    assert_eq!(default, RenderConfig::with_max_reflection_depth(500, 500, 4));
}

#[test]
fn renderer_keeps_its_config() {
    let config = RenderConfig::with_max_reflection_depth(7, 5, 2);
    let renderer = Renderer::new(config);
    assert_eq!(renderer.config(), config);
}

#[test]
fn render_pixels_asks_every_pixel() {
    let renderer = Renderer::new(RenderConfig::new(3, 2));
    let image = renderer.render_pixels([0, 0, 0], |x, y| [x as u8, y as u8, 7]);
    assert_eq!(image.width(), 3);
    assert_eq!(image.height(), 2);
    for y in 0..2u32 {
        for x in 0..3u32 {
            assert_eq!(image.pixel_rgb8(x, y), [x as u8, y as u8, 7]);
        }
    }
}

#[test]
fn render_pixels_of_empty_image_keeps_nothing() {
    let renderer = Renderer::new(RenderConfig::new(0, 0));
    let image = renderer.render_pixels([1, 2, 3], |_, _| [9, 9, 9]);
    assert!(image.as_rgb8().is_empty());
}

#[test]
fn hit_objects_compare_by_kind_and_index() {
    assert_eq!(HitObject::Sphere(0), HitObject::Sphere(0));
    assert_ne!(HitObject::Sphere(0), HitObject::Triangle(0));
    assert_ne!(HitObject::Triangle(1), HitObject::Triangle(0));
}
