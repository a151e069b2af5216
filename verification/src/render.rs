use vstd::prelude::*;
use crate::image::RenderImage;

verus! {

/// The reflection depth that `RenderConfig::new` and the default use.
pub const DEFAULT_MAX_REFLECTION_DEPTH: u32 = 4;

/// Pixel `(x, y)` of `image` is a color that `pixel_color` may give for it.
pub open spec fn pixel_from<F: Fn(u32, u32) -> [u8; 3]>(pixel_color: F, image: RenderImage, x: u32, y: u32) -> bool {
    exists|c: [u8; 3]| #[trigger] pixel_color.ensures((x, y), c) && c@ == image.spec_pixel(x as int, y as int)
}

/// The size of the image to render and how many reflections to follow.
#[derive(Clone, Copy, Debug, PartialEq, Eq, Structural)]
pub struct RenderConfig {
    pub image_width: u32,
    pub image_height: u32,
    pub max_reflection_depth: u32,
}

impl RenderConfig {
    /// An image size with the default reflection depth.
    pub fn new(image_width: u32, image_height: u32) -> (config: Self)
        ensures
            config == (RenderConfig { image_width, image_height, max_reflection_depth: DEFAULT_MAX_REFLECTION_DEPTH }),
    {
        Self::with_max_reflection_depth(image_width, image_height, DEFAULT_MAX_REFLECTION_DEPTH)
    }

    /// An image size and a reflection depth.
    pub fn with_max_reflection_depth(image_width: u32, image_height: u32, max_reflection_depth: u32) -> (config: Self)
        ensures
            config == (RenderConfig { image_width, image_height, max_reflection_depth }),
    {
        RenderConfig { image_width, image_height, max_reflection_depth }
    }
}

impl Default for RenderConfig {
    /// 500 by 500 pixels, default reflection depth.
    fn default() -> (config: Self)
        ensures
            config == (RenderConfig { image_width: 500, image_height: 500, max_reflection_depth: DEFAULT_MAX_REFLECTION_DEPTH }),
    {
        Self::new(500, 500)
    }
}

/// Renders scenes with a fixed configuration.
#[derive(Clone, Copy, Debug, PartialEq, Eq, Structural)]
pub struct Renderer {
    config: RenderConfig,
}

impl Renderer {
    pub closed spec fn spec_config(&self) -> RenderConfig {
        self.config
    }

    /// A renderer with this configuration.
    pub fn new(config: RenderConfig) -> (renderer: Self)
        ensures
            renderer.spec_config() == config,
    {
        Renderer { config }
    }

    /// The renderer's configuration.
    pub fn config(&self) -> (config: RenderConfig)
        ensures
            config == self.spec_config(),
    {
        self.config
    }

    /// An image of the configured size, every pixel `(x, y)` of which is what
    /// `pixel_color` gives for it; pixels are visited row by row. `background`
    /// fills the image before the first pixel is computed.
    pub fn render_pixels<F: Fn(u32, u32) -> [u8; 3]>(&self, background: [u8; 3], pixel_color: F) -> (image: RenderImage)
        requires
            self.spec_config().image_width * self.spec_config().image_height * 3 <= usize::MAX,
            forall|x: u32, y: u32|
                x < self.spec_config().image_width && y < self.spec_config().image_height
                    ==> #[trigger] pixel_color.requires((x, y)),
        ensures
            image.well_formed(),
            image.spec_width() == self.spec_config().image_width,
            image.spec_height() == self.spec_config().image_height,
            forall|x: u32, y: u32|
                x < self.spec_config().image_width && y < self.spec_config().image_height
                    ==> #[trigger] pixel_from(pixel_color, image, x, y),
    {
        let width = self.config.image_width;
        let height = self.config.image_height;
        let mut image = RenderImage::new_solid(width, height, background);
        let mut pixel_y: u32 = 0;
        while pixel_y < height
            invariant
                pixel_y <= height,
                width == self.spec_config().image_width,
                height == self.spec_config().image_height,
                image.well_formed(),
                image.spec_width() == width,
                image.spec_height() == height,
                forall|x: u32, y: u32| x < width && y < height ==> #[trigger] pixel_color.requires((x, y)),
                forall|x: u32, y: u32|
                    x < width && y < pixel_y
                        ==> #[trigger] pixel_from(pixel_color, image, x, y),
            decreases height - pixel_y,
        {
            let mut pixel_x: u32 = 0;
            while pixel_x < width
                invariant
                    pixel_x <= width,
                    pixel_y < height,
                    image.well_formed(),
                    image.spec_width() == width,
                    image.spec_height() == height,
                    forall|x: u32, y: u32| x < width && y < height ==> #[trigger] pixel_color.requires((x, y)),
                    forall|x: u32, y: u32|
                        (x < width && y < pixel_y) || (x < pixel_x && y == pixel_y)
                            ==> #[trigger] pixel_from(pixel_color, image, x, y),
                decreases width - pixel_x,
            {
                let color = pixel_color(pixel_x, pixel_y);
                let ghost before = image;
                image.set_pixel_rgb8(pixel_x, pixel_y, color);
                proof {
                    assert forall|x: u32, y: u32|
                        (x < width && y < pixel_y) || (x < pixel_x + 1 && y == pixel_y)
                            implies #[trigger] pixel_from(pixel_color, image, x, y) by {
                        if x == pixel_x && y == pixel_y {
                            assert(pixel_color.ensures((x, y), color) && color@ == image.spec_pixel(x as int, y as int));
                        } else {
                            assert(pixel_from(pixel_color, before, x, y));
                            let c = choose|c: [u8; 3]| #[trigger] pixel_color.ensures((x, y), c) && c@ == before.spec_pixel(x as int, y as int);
                            assert(pixel_color.ensures((x, y), c) && c@ == image.spec_pixel(x as int, y as int));
                        }
                    }
                }
                pixel_x = pixel_x + 1;
            }
            pixel_y = pixel_y + 1;
        }
        image
    }
}

/// Which object of a scene a ray hit: the index of a sphere or of a triangle.
#[derive(Clone, Copy, Debug, PartialEq, Eq, Structural)]
pub enum HitObject {
    Sphere(usize),
    Triangle(usize),
}

} // verus!
