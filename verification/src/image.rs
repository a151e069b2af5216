use vstd::prelude::*;

verus! {

/// Byte offset of the first channel of pixel `(x, y)` in a row-major RGB8
/// buffer whose rows are `width` pixels wide.
pub open spec fn pixel_offset(width: int, x: int, y: int) -> int {
    (y * width + x) * 3
}

/// Facts about pixel offsets inside a `width` by `height` image.
pub proof fn lemma_pixel_offset_bounds(width: int, height: int, x: int, y: int)
    requires
        0 <= x < width,
        0 <= y < height,
    ensures
        0 <= pixel_offset(width, x, y),
        pixel_offset(width, x, y) + 3 <= width * height * 3,
{
    assert(0 <= y * width + x) by (nonlinear_arith)
        requires 0 <= x < width, 0 <= y < height;
    assert(y * width + x + 1 <= width * height) by (nonlinear_arith)
        requires 0 <= x < width, 0 <= y < height;
}

/// Distinct pixels occupy disjoint channel triples.
pub proof fn lemma_pixel_offsets_disjoint(width: int, x1: int, y1: int, x2: int, y2: int)
    requires
        0 <= x1 < width,
        0 <= x2 < width,
        0 <= y1,
        0 <= y2,
        x1 != x2 || y1 != y2,
    ensures
        pixel_offset(width, x1, y1) + 3 <= pixel_offset(width, x2, y2)
            || pixel_offset(width, x2, y2) + 3 <= pixel_offset(width, x1, y1),
{
    assert(y1 * width + x1 != y2 * width + x2) by (nonlinear_arith)
        requires 0 <= x1 < width, 0 <= x2 < width, 0 <= y1, 0 <= y2, x1 != x2 || y1 != y2;
}

/// An RGB image with 8 bits per channel, stored row by row, three bytes per
/// pixel.
pub struct RenderImage {
    width: u32,
    height: u32,
    pixels_rgb8: Vec<u8>,
}

impl RenderImage {
    /// The buffer holds exactly three bytes per pixel.
    pub open spec fn well_formed(&self) -> bool {
        self.bytes().len() == self.spec_width() * self.spec_height() * 3
    }

    /// Width in pixels.
    pub closed spec fn spec_width(&self) -> nat {
        self.width as nat
    }

    /// Height in pixels.
    pub closed spec fn spec_height(&self) -> nat {
        self.height as nat
    }

    /// All channel bytes, row by row.
    pub closed spec fn bytes(&self) -> Seq<u8> {
        self.pixels_rgb8@
    }

    /// The three channel bytes of pixel `(x, y)`.
    pub open spec fn spec_pixel(&self, x: int, y: int) -> Seq<u8> {
        let offset = pixel_offset(self.spec_width() as int, x, y);
        self.bytes().subrange(offset, offset + 3)
    }

    /// An image of `width` by `height` pixels, every pixel of which is `color`.
    pub fn new_solid(width: u32, height: u32, color: [u8; 3]) -> (image: Self)
        requires
            width * height * 3 <= usize::MAX,
        ensures
            image.well_formed(),
            image.spec_width() == width,
            image.spec_height() == height,
            image.bytes().len() == width * height * 3,
            forall|i: int| 0 <= i < image.bytes().len() ==> #[trigger] image.bytes()[i] == color@[i % 3],
            forall|x: int, y: int|
                0 <= x < width && 0 <= y < height ==> #[trigger] image.spec_pixel(x, y) == color@,
    {
        let pixel_count: usize = (width as usize) * (height as usize);
        let mut pixels_rgb8: Vec<u8> = Vec::with_capacity(pixel_count * 3);
        let mut filled: usize = 0;
        while filled < pixel_count
            invariant
                pixel_count == width * height,
                pixel_count * 3 <= usize::MAX,
                filled <= pixel_count,
                pixels_rgb8@.len() == filled * 3,
                forall|i: int| 0 <= i < pixels_rgb8@.len() ==> #[trigger] pixels_rgb8@[i] == color@[i % 3],
            decreases pixel_count - filled,
        {
            let ghost before = pixels_rgb8@;
            pixels_rgb8.push(color[0]);
            pixels_rgb8.push(color[1]);
            pixels_rgb8.push(color[2]);
            proof {
                assert forall|i: int| 0 <= i < pixels_rgb8@.len() implies #[trigger] pixels_rgb8@[i] == color@[i % 3] by {
                    if i >= before.len() {
                        assert(before.len() == filled * 3);
                        assert(i % 3 == i - filled * 3) by (nonlinear_arith)
                            requires filled * 3 <= i < filled * 3 + 3;
                    }
                }
            }
            filled = filled + 1;
        }
        let image = RenderImage { width, height, pixels_rgb8 };
        proof {
            assert forall|x: int, y: int|
                0 <= x < width && 0 <= y < height implies #[trigger] image.spec_pixel(x, y) == color@ by {
                lemma_pixel_offset_bounds(width as int, height as int, x, y);
                let offset = pixel_offset(width as int, x, y);
                assert(offset % 3 == 0) by (nonlinear_arith)
                    requires offset == (y * width + x) * 3;
                assert((offset + 1) % 3 == 1) by (nonlinear_arith)
                    requires offset % 3 == 0, offset >= 0;
                assert((offset + 2) % 3 == 2) by (nonlinear_arith)
                    requires offset % 3 == 0, offset >= 0;
                assert(image.bytes()[offset] == color@[0]);
                assert(image.bytes()[offset + 1] == color@[1]);
                assert(image.bytes()[offset + 2] == color@[2]);
                assert(image.spec_pixel(x, y) =~= color@);
            }
        }
        image
    }

    /// Width in pixels.
    pub fn width(&self) -> (w: u32)
        ensures
            w == self.spec_width(),
    {
        self.width
    }

    /// Height in pixels.
    pub fn height(&self) -> (h: u32)
        ensures
            h == self.spec_height(),
    {
        self.height
    }

    /// All channel bytes, row by row, three per pixel.
    pub fn as_rgb8(&self) -> (bytes: &[u8])
        requires
            self.well_formed(),
        ensures
            bytes@ == self.bytes(),
            bytes@.len() == self.spec_width() * self.spec_height() * 3,
    {
        proof {
        }
        self.pixels_rgb8.as_slice()
    }

    /// Sets pixel `(x, y)` to `color`; every other pixel keeps its value.
    pub fn set_pixel_rgb8(&mut self, x: u32, y: u32, color: [u8; 3])
        requires
            old(self).well_formed(),
            x < old(self).spec_width(),
            y < old(self).spec_height(),
        ensures
            final(self).well_formed(),
            final(self).bytes().len() == old(self).bytes().len(),
            final(self).spec_width() == old(self).spec_width(),
            final(self).spec_height() == old(self).spec_height(),
            final(self).spec_pixel(x as int, y as int) == color@,
            forall|px: int, py: int|
                0 <= px < final(self).spec_width() && 0 <= py < final(self).spec_height()
                    && (px != x || py != y)
                    ==> #[trigger] final(self).spec_pixel(px, py) == old(self).spec_pixel(px, py),
    {
        proof {
            lemma_pixel_offset_bounds(self.width as int, self.height as int, x as int, y as int);
        }
        let buffer_len = self.pixels_rgb8.len();
        proof {
            assert((y as int) * (self.width as int) <= (y as int) * (self.width as int) + (x as int));
        }
        let offset: usize = ((y as usize) * (self.width as usize) + (x as usize)) * 3;
        let ghost before = self.pixels_rgb8@;
        self.pixels_rgb8.set(offset, color[0]);
        self.pixels_rgb8.set(offset + 1, color[1]);
        self.pixels_rgb8.set(offset + 2, color[2]);
        proof {
            let w = self.width as int;
            assert(self.spec_pixel(x as int, y as int) =~= color@);
            assert forall|px: int, py: int|
                0 <= px < self.spec_width() && 0 <= py < self.spec_height()
                    && (px != x || py != y)
                    implies #[trigger] self.spec_pixel(px, py) == before.subrange(pixel_offset(w, px, py), pixel_offset(w, px, py) + 3) by {
                lemma_pixel_offsets_disjoint(w, px, py, x as int, y as int);
                lemma_pixel_offset_bounds(w, self.height as int, px, py);
                assert(self.spec_pixel(px, py) =~= before.subrange(pixel_offset(w, px, py), pixel_offset(w, px, py) + 3));
            }
        }
    }

    /// The color of pixel `(x, y)`.
    pub fn pixel_rgb8(&self, x: u32, y: u32) -> (color: [u8; 3])
        requires
            self.well_formed(),
            x < self.spec_width(),
            y < self.spec_height(),
        ensures
            color@ == self.spec_pixel(x as int, y as int),
    {
        proof {
            lemma_pixel_offset_bounds(self.width as int, self.height as int, x as int, y as int);
        }
        let buffer_len = self.pixels_rgb8.len();
        proof {
            assert((y as int) * (self.width as int) <= (y as int) * (self.width as int) + (x as int));
        }
        let offset: usize = ((y as usize) * (self.width as usize) + (x as usize)) * 3;
        let color = [self.pixels_rgb8[offset], self.pixels_rgb8[offset + 1], self.pixels_rgb8[offset + 2]];
        assert(color@ =~= self.spec_pixel(x as int, y as int));
        color
    }
}

} // verus!
