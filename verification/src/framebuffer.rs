//! RGB565 framebuffer for the LCD display.

use vstd::prelude::*;
use vstd::string::*;
use crate::error::Error;
use crate::{LCD_HEIGHT, LCD_WIDTH};
use crate::orientation::{spec_is_portrait, Orientation};

verus! {

/// Total pixel count for the display.
pub const PIXEL_COUNT: usize = 54400;

/// RGB565 value of an RGB888 colour: the top 5, 6 and 5 bits of red,
/// green and blue.
pub open spec fn rgb565(r: u8, g: u8, b: u8) -> u16 {
    ((r / 8) * 2048 + (g / 4) * 32 + b / 8) as u16
}

/// Red component (0-31) of an RGB565 pixel.
pub open spec fn red5(p: u16) -> nat {
    (p / 2048) as nat
}

/// Green component (0-63) of an RGB565 pixel.
pub open spec fn green6(p: u16) -> nat {
    ((p / 32) % 64) as nat
}

/// Blue component (0-31) of an RGB565 pixel.
pub open spec fn blue5(p: u16) -> nat {
    (p % 32) as nat
}

/// RGB888 expansion of an RGB565 pixel: each component shifted to the top
/// of its byte with its own high bits repeated below.
pub open spec fn rgb888(p: u16) -> (u8, u8, u8) {
    (
        (red5(p) * 8 + red5(p) / 4) as u8,
        (green6(p) * 4 + green6(p) / 16) as u8,
        (blue5(p) * 8 + blue5(p) / 4) as u8,
    )
}

/// Converts RGB888 to RGB565.
pub fn rgb888_to_rgb565(r: u8, g: u8, b: u8) -> (p: u16)
    ensures
        p == rgb565(r, g, b),
{
    let r16 = r as u16;
    let g16 = g as u16;
    let b16 = b as u16;
    let p = ((r16 >> 3) << 11) | ((g16 >> 2) << 5) | (b16 >> 3);
    assert(p == (r16 / 8) * 2048 + (g16 / 4) * 32 + b16 / 8) by (bit_vector)
        requires
            r16 < 256,
            g16 < 256,
            b16 < 256,
            p == ((r16 >> 3) << 11) | ((g16 >> 2) << 5) | (b16 >> 3),
    ;
    p
}

/// Converts RGB565 to RGB888.
pub fn rgb565_to_rgb888(pixel: u16) -> (c: (u8, u8, u8))
    ensures
        c == rgb888(pixel),
{
    let r16 = (pixel >> 11) & 0x1F;
    let g16 = (pixel >> 5) & 0x3F;
    let b16 = pixel & 0x1F;
    assert(r16 == pixel / 2048 && g16 == (pixel / 32) % 64 && b16 == pixel % 32) by (bit_vector)
        requires
            r16 == (pixel >> 11) & 0x1F,
            g16 == (pixel >> 5) & 0x3F,
            b16 == pixel & 0x1F,
    ;
    let r = r16 as u8;
    let g = g16 as u8;
    let b = b16 as u8;
    let r8 = (r << 3) | (r >> 2);
    let g8 = (g << 2) | (g >> 4);
    let b8 = (b << 3) | (b >> 2);
    assert(r8 == r * 8 + r / 4) by (bit_vector)
        requires
            r < 32,
            r8 == (r << 3) | (r >> 2),
    ;
    assert(g8 == g * 4 + g / 16) by (bit_vector)
        requires
            g < 64,
            g8 == (g << 2) | (g >> 4),
    ;
    assert(b8 == b * 8 + b / 4) by (bit_vector)
        requires
            b < 32,
            b8 == (b << 3) | (b >> 2),
    ;
    (r8, g8, b8)
}

/// Converting an RGB565 pixel to RGB888 and back gives the pixel again.
pub proof fn law_rgb565_round_trip(p: u16)
    ensures
        rgb565(rgb888(p).0, rgb888(p).1, rgb888(p).2) == p,
{
}

/// Index of pixel (`x`, `y`) in a row-major image `w` pixels wide.
pub open spec fn pixel_index(w: int, x: int, y: int) -> int {
    y * w + x
}

/// Distinct in-range coordinates have distinct indices, and in-range
/// coordinates index inside the image.
pub proof fn lemma_pixel_index(w: int, h: int, x1: int, y1: int, x2: int, y2: int)
    requires
        0 <= x1 < w,
        0 <= x2 < w,
        0 <= y1 < h,
        0 <= y2 < h,
    ensures
        0 <= pixel_index(w, x1, y1) < w * h,
        pixel_index(w, x1, y1) == pixel_index(w, x2, y2) ==> x1 == x2 && y1 == y2,
{
    assert(0 <= y1 * w + x1 < w * h) by (nonlinear_arith)
        requires
            0 <= x1 < w,
            0 <= y1 < h,
    ;
    assert(y1 * w + x1 == y2 * w + x2 ==> x1 == x2 && y1 == y2) by (nonlinear_arith)
        requires
            0 <= x1 < w,
            0 <= x2 < w,
            0 <= y1,
            0 <= y2,
    {
        if y1 * w + x1 == y2 * w + x2 {
            if y1 < y2 {
                assert(y1 * w + w <= y2 * w);
            } else if y2 < y1 {
                assert(y2 * w + w <= y1 * w);
            }
        }
    }
}

/// Abstract state of a framebuffer: its dimensions and its pixels, row by
/// row.
pub struct FramebufferView {
    pub width: u16,
    pub height: u16,
    pub pixels: Seq<u16>,
}

impl FramebufferView {
    /// The pixel at (`x`, `y`).
    pub open spec fn pixel(self, x: int, y: int) -> u16 {
        self.pixels[pixel_index(self.width as int, x, y)]
    }

    /// Whether (`x`, `y`) lies inside the image.
    pub open spec fn contains(self, x: int, y: int) -> bool {
        0 <= x < self.width && 0 <= y < self.height
    }
}

/// RGB565 framebuffer (320x170 for the panel).
#[derive(Clone)]
pub struct Framebuffer {
    /// Pixel data in RGB565 format.
    data: Vec<u16>,
    /// Width of the framebuffer.
    width: u16,
    /// Height of the framebuffer.
    height: u16,
}

impl View for Framebuffer {
    type V = FramebufferView;

    closed spec fn view(&self) -> FramebufferView {
        FramebufferView { width: self.width, height: self.height, pixels: self.data@ }
    }
}

impl Framebuffer {
    /// The pixel vector holds exactly width x height pixels.
    pub closed spec fn wf(&self) -> bool {
        self.data@.len() == self.width as int * self.height as int
    }

    /// A well-formed framebuffer holds width x height pixels.
    pub proof fn lemma_size(&self)
        requires
            self.wf(),
        ensures
            self@.pixels.len() == self@.width as int * self@.height as int,
    {
    }

    /// Creates a new 320x170 framebuffer initialized to black.
    pub fn new() -> (fb: Framebuffer)
        ensures
            fb.wf(),
            fb@.width == LCD_WIDTH,
            fb@.height == LCD_HEIGHT,
            fb@.pixels == Seq::new(PIXEL_COUNT as nat, |i: int| 0u16),
    {
        let fb = Framebuffer { data: vec![0u16; PIXEL_COUNT], width: LCD_WIDTH, height: LCD_HEIGHT };
        assert(fb@.pixels =~= Seq::new(PIXEL_COUNT as nat, |i: int| 0u16));
        fb
    }

    /// Creates a black framebuffer with custom dimensions.
    pub fn with_dimensions(width: u16, height: u16) -> (fb: Framebuffer)
        ensures
            fb.wf(),
            fb@.width == width,
            fb@.height == height,
            fb@.pixels == Seq::new((width * height) as nat, |i: int| 0u16),
    {
        assert(width as int * height as int <= 0xFFFF * 0xFFFF) by (nonlinear_arith)
            requires
                width <= 0xFFFF,
                height <= 0xFFFF,
        ;
        let size = width as usize * height as usize;
        let fb = Framebuffer { data: vec![0u16; size], width, height };
        assert(fb@.pixels =~= Seq::new((width * height) as nat, |i: int| 0u16));
        fb
    }

    /// Returns the width of the framebuffer.
    pub fn width(&self) -> (w: u16)
        ensures
            w == self@.width,
    {
        self.width
    }

    /// Returns the height of the framebuffer.
    pub fn height(&self) -> (h: u16)
        ensures
            h == self@.height,
    {
        self.height
    }

    /// Resizes the framebuffer; when the dimensions change the pixels are
    /// reset to black, otherwise nothing changes.
    pub fn resize(&mut self, width: u16, height: u16)
        requires
            old(self).wf(),
        ensures
            final(self).wf(),
            final(self)@.width == width,
            final(self)@.height == height,
            old(self)@.width == width && old(self)@.height == height ==> final(self)@ == old(
                self,
            )@,
            !(old(self)@.width == width && old(self)@.height == height) ==> final(self)@.pixels
                == Seq::new((width * height) as nat, |i: int| 0u16),
    {
        if self.width != width || self.height != height {
            *self = Framebuffer::with_dimensions(width, height);
        }
    }

    /// Returns the raw pixel data.
    pub fn data(&self) -> (d: &[u16])
        ensures
            d@ == self@.pixels,
    {
        self.data.as_slice()
    }

    /// Returns the raw pixel data for writing; the framebuffer's pixels
    /// become whatever the borrow leaves in the slice (a slice keeps its
    /// length, so the framebuffer stays well-formed).
    pub fn data_mut(&mut self) -> (d: &mut [u16])
        requires
            old(self).wf(),
        ensures
            d@ == old(self)@.pixels,
            final(self)@.pixels == final(d)@,
            final(self)@.width == old(self)@.width,
            final(self)@.height == old(self)@.height,
            final(d)@.len() == d@.len() ==> final(self).wf(),
    {
        self.data.as_mut_slice()
    }

    /// Clears the framebuffer to a solid color.
    pub fn clear(&mut self, color: u16)
        requires
            old(self).wf(),
        ensures
            final(self).wf(),
            final(self)@.width == old(self)@.width,
            final(self)@.height == old(self)@.height,
            final(self)@.pixels == Seq::new(old(self)@.pixels.len(), |i: int| color),
    {
        let n = self.data.len();
        let mut i: usize = 0;
        while i < n
            invariant
                n == self.data@.len(),
                self.wf(),
                self.width == old(self).width,
                self.height == old(self).height,
                i <= n,
                forall|k: int| 0 <= k < i ==> self.data@[k] == color,
            decreases n - i,
        {
            self.data.set(i, color);
            i = i + 1;
        }
        assert(self@.pixels =~= Seq::new(old(self)@.pixels.len(), |i: int| color));
    }

    /// Sets the pixel at the given coordinates; coordinates outside the
    /// image are ignored.
    pub fn set_pixel(&mut self, x: u16, y: u16, color: u16)
        requires
            old(self).wf(),
        ensures
            final(self).wf(),
            final(self)@.width == old(self)@.width,
            final(self)@.height == old(self)@.height,
            final(self)@.pixels == (if old(self)@.contains(x as int, y as int) {
                old(self)@.pixels.update(
                    pixel_index(old(self)@.width as int, x as int, y as int),
                    color,
                )
            } else {
                old(self)@.pixels
            }),
    {
        if x < self.width && y < self.height {
            let idx = self.index_of(x, y);
            self.data.set(idx, color);
        }
    }

    /// Index of an in-range pixel in the pixel vector.
    fn index_of(&self, x: u16, y: u16) -> (idx: usize)
        requires
            self.wf(),
            x < self.width,
            y < self.height,
        ensures
            idx == pixel_index(self.width as int, x as int, y as int),
            idx < self.data@.len(),
    {
        proof {
            lemma_pixel_index(
                self.width as int,
                self.height as int,
                x as int,
                y as int,
                x as int,
                y as int,
            );
            assert(self.width as int * self.height as int <= 0xFFFF * 0xFFFF) by (nonlinear_arith)
                requires
                    self.width <= 0xFFFF,
                    self.height <= 0xFFFF,
            ;
            assert(y as int * self.width as int <= y as int * self.width as int + x as int);
        }
        y as usize * self.width as usize + x as usize
    }

    /// Gets the pixel at the given coordinates, if they are inside the
    /// image.
    pub fn get_pixel(&self, x: u16, y: u16) -> (p: Option<u16>)
        requires
            self.wf(),
        ensures
            p == (if self@.contains(x as int, y as int) {
                Some(self@.pixel(x as int, y as int))
            } else {
                None::<u16>
            }),
    {
        if x < self.width && y < self.height {
            let idx = self.index_of(x, y);
            Some(self.data[idx])
        } else {
            None
        }
    }

    /// Fills a rectangle with a solid color; the parts outside the image
    /// are ignored.
    pub fn fill_rect(&mut self, x: u16, y: u16, width: u16, height: u16, color: u16)
        requires
            old(self).wf(),
            width == 0 || height == 0 || (x + width <= 0x10000 && y + height <= 0x10000),
        ensures
            final(self).wf(),
            final(self)@.width == old(self)@.width,
            final(self)@.height == old(self)@.height,
            forall|px: int, py: int|
                old(self)@.contains(px, py) ==> #[trigger] final(self)@.pixel(px, py) == (if x
                    <= px < x + width && y <= py < y + height {
                    color
                } else {
                    old(self)@.pixel(px, py)
                }),
    {
        let ghost orig = self@;
        let mut dy: u16 = 0;
        while dy < height
            invariant
                self.wf(),
                self@.width == orig.width,
                self@.height == orig.height,
                width == 0 || height == 0 || (x + width <= 0x10000 && y + height <= 0x10000),
                dy <= height,
                forall|px: int, py: int|
                    orig.contains(px, py) ==> #[trigger] self@.pixel(px, py) == (if x <= px < x
                        + width && y <= py < y + dy {
                        color
                    } else {
                        orig.pixel(px, py)
                    }),
            decreases height - dy,
        {
            let mut dx: u16 = 0;
            while dx < width
                invariant
                    self.wf(),
                    self@.width == orig.width,
                    self@.height == orig.height,
                    width == 0 || (x + width <= 0x10000 && y + height <= 0x10000),
                    dy < height,
                    dx <= width,
                    forall|px: int, py: int|
                        orig.contains(px, py) ==> #[trigger] self@.pixel(px, py) == (if (x <= px
                            < x + width && y <= py < y + dy) || (py == y + dy && x <= px < x
                            + dx) {
                            color
                        } else {
                            orig.pixel(px, py)
                        }),
                decreases width - dx,
            {
                let ghost before = self@;
                let px0 = x + dx;
                let py0 = y + dy;
                self.set_pixel(px0, py0, color);
                proof {
                    assert forall|px: int, py: int| orig.contains(px, py) implies #[trigger] self@.pixel(
                        px,
                        py,
                    ) == (if (x <= px < x + width && y <= py < y + dy) || (py == y + dy && x <= px
                        < x + dx + 1) {
                        color
                    } else {
                        orig.pixel(px, py)
                    }) by {
                        let w = orig.width as int;
                        let i = pixel_index(w, px, py);
                        lemma_pixel_index(w, orig.height as int, px, py, px, py);
                        if orig.contains(px0 as int, py0 as int) {
                            let i0 = pixel_index(w, px0 as int, py0 as int);
                            lemma_pixel_index(w, orig.height as int, px, py, px0 as int, py0 as int);
                            lemma_pixel_index(
                                w,
                                orig.height as int,
                                px0 as int,
                                py0 as int,
                                px0 as int,
                                py0 as int,
                            );
                            assert(self@.pixels == before.pixels.update(i0, color));
                            assert(0 <= i < before.pixels.len());
                            assert(0 <= i0 < before.pixels.len());
                            if i != i0 {
                                assert(self@.pixels[i] == before.pixels[i]);
                                assert(self@.pixel(px, py) == before.pixel(px, py));
                            }
                        } else {
                            assert(self@.pixels == before.pixels);
                            assert(self@.pixel(px, py) == before.pixel(px, py));
                        }
                    }
                }
                dx = dx + 1;
            }
            dy = dy + 1;
        }
    }

    /// Copies pixel data from an RGB565 slice of the same size.
    pub fn copy_from_rgb565(&mut self, data: &[u16]) -> (r: Result<(), Error>)
        requires
            old(self).wf(),
        ensures
            final(self).wf(),
            final(self)@.width == old(self)@.width,
            final(self)@.height == old(self)@.height,
            data@.len() == old(self)@.pixels.len() ==> r is Ok && final(self)@.pixels == data@,
            data@.len() != old(self)@.pixels.len() ==> r == Err::<(), Error>(
                Error::FramebufferSize {
                    expected: old(self)@.pixels.len() as usize,
                    actual: data@.len() as usize,
                },
            ) && final(self)@ == old(self)@,
    {
        if data.len() != self.data.len() {
            return Err(Error::FramebufferSize { expected: self.data.len(), actual: data.len() });
        }
        let n = data.len();
        let mut i: usize = 0;
        while i < n
            invariant
                n == data@.len(),
                n == self.data@.len(),
                self.wf(),
                self.width == old(self).width,
                self.height == old(self).height,
                i <= n,
                forall|k: int| 0 <= k < i ==> self.data@[k] == data@[k],
            decreases n - i,
        {
            self.data.set(i, data[i]);
            i = i + 1;
        }
        assert(self.data@ =~= data@);
        Ok(())
    }

    /// Copies pixel data from an RGBA8 slice (4 bytes per pixel, alpha
    /// ignored), converting to RGB565.
    pub fn copy_from_rgba8(&mut self, data: &[u8]) -> (r: Result<(), Error>)
        requires
            old(self).wf(),
            old(self)@.pixels.len() * 4 <= usize::MAX,
        ensures
            final(self).wf(),
            final(self)@.width == old(self)@.width,
            final(self)@.height == old(self)@.height,
            data@.len() == old(self)@.pixels.len() * 4 ==> r is Ok && final(self)@.pixels
                == from_packed(data@, 4),
            data@.len() != old(self)@.pixels.len() * 4 ==> r == Err::<(), Error>(
                Error::FramebufferSize {
                    expected: (old(self)@.pixels.len() * 4) as usize,
                    actual: data@.len() as usize,
                },
            ) && final(self)@ == old(self)@,
    {
        self.copy_packed(data, 4)
    }

    /// Copies pixel data from an RGB8 slice (3 bytes per pixel),
    /// converting to RGB565.
    pub fn copy_from_rgb8(&mut self, data: &[u8]) -> (r: Result<(), Error>)
        requires
            old(self).wf(),
            old(self)@.pixels.len() * 3 <= usize::MAX,
        ensures
            final(self).wf(),
            final(self)@.width == old(self)@.width,
            final(self)@.height == old(self)@.height,
            data@.len() == old(self)@.pixels.len() * 3 ==> r is Ok && final(self)@.pixels
                == from_packed(data@, 3),
            data@.len() != old(self)@.pixels.len() * 3 ==> r == Err::<(), Error>(
                Error::FramebufferSize {
                    expected: (old(self)@.pixels.len() * 3) as usize,
                    actual: data@.len() as usize,
                },
            ) && final(self)@ == old(self)@,
    {
        self.copy_packed(data, 3)
    }

    /// Shared body of the RGB8 and RGBA8 copies: `stride` bytes per pixel,
    /// red, green and blue first.
    fn copy_packed(&mut self, data: &[u8], stride: usize) -> (r: Result<(), Error>)
        requires
            old(self).wf(),
            stride == 3 || stride == 4,
            old(self)@.pixels.len() * stride <= usize::MAX,
        ensures
            final(self).wf(),
            final(self)@.width == old(self)@.width,
            final(self)@.height == old(self)@.height,
            data@.len() == old(self)@.pixels.len() * stride ==> r is Ok && final(self)@.pixels
                == from_packed(data@, stride as int),
            data@.len() != old(self)@.pixels.len() * stride ==> r == Err::<(), Error>(
                Error::FramebufferSize {
                    expected: (old(self)@.pixels.len() * stride) as usize,
                    actual: data@.len() as usize,
                },
            ) && final(self)@ == old(self)@,
    {
        let expected_len = self.data.len() * stride;
        if data.len() != expected_len {
            return Err(Error::FramebufferSize { expected: expected_len, actual: data.len() });
        }
        let n = self.data.len();
        let ghost target = from_packed(data@, stride as int);
        proof {
            assert((n * stride) as int / stride as int == n) by (nonlinear_arith)
                requires
                    stride == 3 || stride == 4,
            ;
        }
        let mut i: usize = 0;
        while i < n
            invariant
                n == self.data@.len(),
                data@.len() == n * stride,
                n * stride <= usize::MAX,
                stride == 3 || stride == 4,
                target.len() == n,
                target == from_packed(data@, stride as int),
                self.wf(),
                self.width == old(self).width,
                self.height == old(self).height,
                i <= n,
                forall|k: int| 0 <= k < i ==> self.data@[k] == target[k],
            decreases n - i,
        {
            proof {
                assert(i * stride + stride <= n * stride) by (nonlinear_arith)
                    requires
                        i < n,
                        stride == 3 || stride == 4,
                ;
            }
            let base = i * stride;
            let p = rgb888_to_rgb565(data[base], data[base + 1], data[base + 2]);
            self.data.set(i, p);
            i = i + 1;
        }
        assert(self.data@ =~= target);
        Ok(())
    }

    /// Extracts a rectangular region, row by row, as a new pixel vector;
    /// positions outside the image read as 0.
    pub fn extract_region(&self, x: u16, y: u16, width: u16, height: u16) -> (region: Vec<u16>)
        requires
            self.wf(),
            width == 0 || height == 0 || (x + width <= 0x10000 && y + height <= 0x10000),
        ensures
            region@.len() == width * height,
            forall|dx: int, dy: int|
                0 <= dx < width && 0 <= dy < height ==> #[trigger] region_at(
                    region@,
                    width as int,
                    dx,
                    dy,
                ) == (if self@.contains(x + dx, y + dy) {
                    self@.pixel(x + dx, y + dy)
                } else {
                    0u16
                }),
    {
        proof {
            assert(width as int * height as int <= 0xFFFF * 0xFFFF) by (nonlinear_arith)
                requires
                    width <= 0xFFFF,
                    height <= 0xFFFF,
            ;
        }
        let mut region: Vec<u16> = Vec::with_capacity(width as usize * height as usize);
        let mut dy: u16 = 0;
        while dy < height
            invariant
                self.wf(),
                width == 0 || height == 0 || (x + width <= 0x10000 && y + height <= 0x10000),
                dy <= height,
                region@.len() == dy * width,
                forall|ddx: int, ddy: int|
                    0 <= ddx < width && 0 <= ddy < dy ==> #[trigger] region_at(
                        region@,
                        width as int,
                        ddx,
                        ddy,
                    ) == (if self@.contains(x + ddx, y + ddy) {
                        self@.pixel(x + ddx, y + ddy)
                    } else {
                        0u16
                    }),
            decreases height - dy,
        {
            let mut dx: u16 = 0;
            while dx < width
                invariant
                    self.wf(),
                    width == 0 || (x + width <= 0x10000 && y + height <= 0x10000),
                    dy < height,
                    dx <= width,
                    region@.len() == dy * width + dx,
                    forall|ddx: int, ddy: int|
                        0 <= ddx < width && (0 <= ddy < dy || (ddy == dy && ddx < dx)) ==> #[trigger] region_at(
                            region@,
                            width as int,
                            ddx,
                            ddy,
                        ) == (if self@.contains(x + ddx, y + ddy) {
                            self@.pixel(x + ddx, y + ddy)
                        } else {
                            0u16
                        }),
                decreases width - dx,
            {
                let ghost before = region@;
                let px = x + dx;
                let py = y + dy;
                let v = if px < self.width && py < self.height {
                    let idx = self.index_of(px, py);
                    self.data[idx]
                } else {
                    0
                };
                region.push(v);
                proof {
                    assert forall|ddx: int, ddy: int|
                        0 <= ddx < width && (0 <= ddy < dy || (ddy == dy && ddx < dx + 1)) implies #[trigger] region_at(
                        region@,
                        width as int,
                        ddx,
                        ddy,
                    ) == (if self@.contains(x + ddx, y + ddy) {
                        self@.pixel(x + ddx, y + ddy)
                    } else {
                        0u16
                    }) by {
                        if ddy == dy && ddx == dx {
                            assert(pixel_index(width as int, ddx, ddy) == before.len());
                        } else {
                            lemma_region_index_before(width as int, ddx, ddy, dx as int, dy as int);
                            assert(region_at(region@, width as int, ddx, ddy) == region_at(
                                before,
                                width as int,
                                ddx,
                                ddy,
                            ));
                        }
                    }
                }
                dx = dx + 1;
            }
            proof {
                assert((dy + 1) * width == dy * width + width) by (nonlinear_arith);
            }
            dy = dy + 1;
        }
        proof {
            assert(height * width == width * height) by (nonlinear_arith);
        }
        region
    }

    /// Rotates the framebuffer 180 degrees in place (reverses the pixel
    /// order).
    pub fn rotate_180(&mut self)
        requires
            old(self).wf(),
        ensures
            final(self).wf(),
            final(self)@.width == old(self)@.width,
            final(self)@.height == old(self)@.height,
            final(self)@.pixels == old(self)@.pixels.reverse(),
    {
        let len = self.data.len();
        let ghost orig = self.data@;
        let mut i: usize = 0;
        while i < len / 2
            invariant
                len == self.data@.len(),
                len == orig.len(),
                self.wf(),
                self.width == old(self).width,
                self.height == old(self).height,
                i <= len / 2,
                forall|k: int| 0 <= k < i ==> self.data@[k] == orig[len - 1 - k],
                forall|k: int| 0 <= k < i ==> self.data@[len - 1 - k] == orig[k],
                forall|k: int| i <= k < len - i ==> self.data@[k] == orig[k],
            decreases len / 2 - i,
        {
            let j = len - 1 - i;
            let a = self.data[i];
            let b = self.data[j];
            self.data.set(i, b);
            self.data.set(j, a);
            i = i + 1;
        }
        assert(self.data@ =~= orig.reverse());
    }

    /// Converts the framebuffer to RGBA8 bytes (alpha 255), as PNG
    /// encoding expects them.
    pub fn to_rgba8(&self) -> (rgba: Vec<u8>)
        requires
            self@.pixels.len() * 4 <= usize::MAX,
        ensures
            rgba@ == rgba_bytes(self@.pixels),
    {
        let n = self.data.len();
        let mut rgba: Vec<u8> = Vec::with_capacity(n * 4);
        let mut i: usize = 0;
        while i < n
            invariant
                n == self.data@.len(),
                i <= n,
                rgba@ == rgba_bytes(self.data@.take(i as int)),
            decreases n - i,
        {
            let pixel = self.data[i];
            let (r, g, b) = rgb565_to_rgb888(pixel);
            rgba.push(r);
            rgba.push(g);
            rgba.push(b);
            rgba.push(255);
            assert(rgba@ =~= rgba_bytes(self.data@.take(i + 1)));
            i = i + 1;
        }
        assert(self.data@.take(n as int) =~= self.data@);
        rgba
    }
}

impl Default for Framebuffer {
    fn default() -> (fb: Framebuffer)
        ensures
            fb.wf(),
            fb@.width == LCD_WIDTH,
            fb@.height == LCD_HEIGHT,
            fb@.pixels == Seq::new(PIXEL_COUNT as nat, |i: int| 0u16),
    {
        Framebuffer::new()
    }
}

/// Entry (`x`, `y`) of a row-major pixel sequence `w` pixels wide.
pub open spec fn region_at(s: Seq<u16>, w: int, x: int, y: int) -> u16 {
    s[pixel_index(w, x, y)]
}

/// A cell written before cell (`x`, `y`) in row-major order lies below
/// that cell's index.
proof fn lemma_region_index_before(w: int, ddx: int, ddy: int, x: int, y: int)
    requires
        0 <= ddx < w,
        0 <= x,
        0 <= ddy,
        ddy < y || (ddy == y && ddx < x),
    ensures
        pixel_index(w, ddx, ddy) < pixel_index(w, x, y),
{
    assert(ddy * w + ddx < y * w + x) by (nonlinear_arith)
        requires
            0 <= ddx < w,
            0 <= x,
            0 <= ddy,
            ddy < y || (ddy == y && ddx < x),
    {
        if ddy < y {
            assert(ddy * w + w <= y * w);
        }
    }
}

/// Pixels decoded from packed 8-bit colour, `stride` bytes per pixel with
/// red, green and blue first.
pub open spec fn from_packed(data: Seq<u8>, stride: int) -> Seq<u16> {
    Seq::new(
        (data.len() as int / stride) as nat,
        |i: int| rgb565(data[i * stride], data[i * stride + 1], data[i * stride + 2]),
    )
}

/// Byte `c` (0 red, 1 green, 2 blue, 3 alpha) of a pixel in RGBA8.
pub open spec fn rgba_component(p: u16, c: int) -> u8 {
    if c == 0 {
        rgb888(p).0
    } else if c == 1 {
        rgb888(p).1
    } else if c == 2 {
        rgb888(p).2
    } else {
        255u8
    }
}

/// RGBA8 bytes of a pixel sequence, 4 per pixel, alpha 255.
pub open spec fn rgba_bytes(pixels: Seq<u16>) -> Seq<u8> {
    Seq::new(4 * pixels.len(), |k: int| rgba_component(pixels[k / 4], k % 4))
}

/// The bytes left after removing every leading `#`.
pub open spec fn strip_hashes(b: Seq<u8>) -> Seq<u8>
    decreases b.len(),
{
    if b.len() > 0 && b[0] == 35 {
        strip_hashes(b.drop_first())
    } else {
        b
    }
}

/// Value of an ASCII hexadecimal digit (either case).
pub open spec fn hex_digit_value(c: u8) -> Option<u8> {
    if 48 <= c <= 57 {
        Some((c - 48) as u8)
    } else if 97 <= c <= 102 {
        Some((c - 87) as u8)
    } else if 65 <= c <= 70 {
        Some((c - 55) as u8)
    } else {
        None
    }
}

/// The byte that two hex digits denote; `None` unless both characters
/// are hex digits.
pub open spec fn parse_hex_byte(c0: u8, c1: u8) -> Option<u8> {
    match (hex_digit_value(c0), hex_digit_value(c1)) {
        (Some(a), Some(b)) => Some((a * 16 + b) as u8),
        _ => None,
    }
}

/// The RGB565 colour that a `#RRGGBB` text (any number of leading `#`,
/// or none) denotes, if it is one.
pub open spec fn parse_hex_color_bytes(b: Seq<u8>) -> Option<u16> {
    let h = strip_hashes(b);
    if h.len() != 6 {
        None
    } else {
        match (parse_hex_byte(h[0], h[1]), parse_hex_byte(h[2], h[3]), parse_hex_byte(h[4], h[5])) {
            (Some(r), Some(g), Some(bl)) => Some(rgb565(r, g, bl)),
            _ => None,
        }
    }
}

proof fn lemma_strip_step(b: Seq<u8>, start: int)
    requires
        0 <= start < b.len(),
        b[start] == 35,
    ensures
        strip_hashes(b.subrange(start, b.len() as int)) == strip_hashes(
            b.subrange(start + 1, b.len() as int),
        ),
{
    assert(b.subrange(start, b.len() as int).drop_first() =~= b.subrange(
        start + 1,
        b.len() as int,
    ));
}

/// Value of one hex digit byte.
fn hex_digit(c: u8) -> (v: Option<u8>)
    ensures
        v == hex_digit_value(c),
{
    if 48 <= c && c <= 57 {
        Some(c - 48)
    } else if 97 <= c && c <= 102 {
        Some(c - 87)
    } else if 65 <= c && c <= 70 {
        Some(c - 55)
    } else {
        None
    }
}

/// Reads one two-character hex field.
fn hex_byte(c0: u8, c1: u8) -> (v: Option<u8>)
    ensures
        v == parse_hex_byte(c0, c1),
{
    match (hex_digit(c0), hex_digit(c1)) {
        (Some(a), Some(b)) => Some(a * 16 + b),
        _ => None,
    }
}

/// Parses a hex colour string (`#RRGGBB` or `RRGGBB`, six hex digits
/// of either case after any leading `#`s) to RGB565.
pub fn parse_hex_color(hex: &str) -> (c: Option<u16>)
    ensures
        c == parse_hex_color_bytes(hex.spec_bytes()),
{
    let bytes = hex.as_bytes();
    let n = bytes.len();
    let mut start: usize = 0;
    assert(bytes@.subrange(0, n as int) =~= bytes@);
    while start < n && bytes[start] == 35
        invariant
            n == bytes@.len(),
            start <= n,
            strip_hashes(bytes@) == strip_hashes(bytes@.subrange(start as int, n as int)),
        decreases n - start,
    {
        proof {
            lemma_strip_step(bytes@, start as int);
        }
        start = start + 1;
    }
    let ghost h = bytes@.subrange(start as int, n as int);
    assert(strip_hashes(h) == h);
    if n - start != 6 {
        return None;
    }
    let r = hex_byte(bytes[start], bytes[start + 1]);
    let g = hex_byte(bytes[start + 2], bytes[start + 3]);
    let b = hex_byte(bytes[start + 4], bytes[start + 5]);
    match (r, g, b) {
        (Some(r), Some(g), Some(b)) => Some(rgb888_to_rgb565(r, g, b)),
        _ => None,
    }
}

/// The RGB565 colour of pixel `i` of an RGBA canvas (four bytes per
/// pixel; alpha is ignored).
pub open spec fn canvas_pixel(px: Seq<u8>, i: int) -> u16 {
    rgb565(px[4 * i], px[4 * i + 1], px[4 * i + 2])
}

/// Landscape: canvas pixel `k` goes to framebuffer pixel `k`.
pub open spec fn landscape_image(f: Seq<u16>, px: Seq<u8>) -> Seq<u16> {
    Seq::new(f.len(), |k: int| if k < px.len() / 4 { canvas_pixel(px, k) } else { f[k] })
}

/// Landscape upside down: canvas pixel `i` goes to framebuffer pixel
/// `len - 1 - i`.
pub open spec fn upside_down_image(f: Seq<u16>, px: Seq<u8>) -> Seq<u16> {
    Seq::new(
        f.len(),
        |k: int|
            if f.len() - 1 - k < px.len() / 4 {
                canvas_pixel(px, f.len() - 1 - k)
            } else {
                f[k]
            },
    )
}

/// Where canvas pixel `n` (x = n % cw, y = n / cw) of a `cw` x `ch`
/// portrait canvas lands in the 320-wide framebuffer: turned 90 degrees
/// clockwise (at x * 320 + ch - 1 - y), or counter-clockwise when
/// `upside_down` (at (cw - 1 - x) * 320 + y).
pub open spec fn portrait_target(cw: int, ch: int, n: int, upside_down: bool) -> int {
    let y = n / cw;
    let x = n % cw;
    if upside_down {
        (cw - 1 - x) * 320 + y
    } else {
        x * 320 + (ch - 1 - y)
    }
}

/// The framebuffer after the first `n` canvas pixels of a portrait canvas
/// were copied in order (a later copy to the same place replaces an
/// earlier one); pixels beyond the canvas data or the framebuffer are
/// skipped.
pub open spec fn portrait_copy(
    f: Seq<u16>,
    px: Seq<u8>,
    cw: int,
    ch: int,
    n: int,
    upside_down: bool,
) -> Seq<u16>
    decreases n,
{
    if n <= 0 {
        f
    } else {
        let prev = portrait_copy(f, px, cw, ch, n - 1, upside_down);
        let dst = portrait_target(cw, ch, n - 1, upside_down);
        if n - 1 < px.len() / 4 && 0 <= dst < f.len() {
            prev.update(dst, canvas_pixel(px, n - 1))
        } else {
            prev
        }
    }
}

/// The framebuffer pixels after rendering an RGBA canvas of `cw` x `ch`
/// pixels in an orientation.
pub open spec fn oriented_image(
    f: Seq<u16>,
    px: Seq<u8>,
    cw: int,
    ch: int,
    o: Orientation,
) -> Seq<u16> {
    match o {
        Orientation::Landscape => landscape_image(f, px),
        Orientation::LandscapeUpsideDown => upside_down_image(f, px),
        Orientation::Portrait => portrait_copy(f, px, cw, ch, cw * ch, false),
        Orientation::PortraitUpsideDown => portrait_copy(f, px, cw, ch, cw * ch, true),
    }
}

/// The RGB565 colour of canvas pixel `i`.
fn canvas_color(px: &[u8], i: usize) -> (c: u16)
    requires
        i < px@.len() / 4,
    ensures
        c == canvas_pixel(px@, i as int),
{
    let n = px.len();
    assert(4 * i + 3 < n);
    rgb888_to_rgb565(px[4 * i], px[4 * i + 1], px[4 * i + 2])
}

/// Renders an RGBA canvas of `cw` x `ch` pixels into the framebuffer in
/// an orientation: landscape copies pixel by pixel, landscape upside down
/// copies reversed, and the portrait orientations turn the canvas by 90
/// degrees into the 320-pixel-wide framebuffer.
pub fn render_with_orientation(
    px: &[u8],
    cw: u32,
    ch: u32,
    framebuffer: &mut Framebuffer,
    orientation: Orientation,
)
    requires
        old(framebuffer).wf(),
        spec_is_portrait(orientation) ==> (cw as int) * (ch as int) <= u32::MAX && (cw as int) * 320 + (ch as int) <= u32::MAX,
    ensures
        final(framebuffer).wf(),
        final(framebuffer)@.width == old(framebuffer)@.width,
        final(framebuffer)@.height == old(framebuffer)@.height,
        final(framebuffer)@.pixels == oriented_image(
            old(framebuffer)@.pixels,
            px@,
            cw as int,
            ch as int,
            orientation,
        ),
{
    let len = framebuffer.data.len();
    let npix = px.len() / 4;
    let ghost f = framebuffer.data@;
    match orientation {
        Orientation::Landscape => {
            let mut i: usize = 0;
            while i < npix && i < len
                invariant
                    npix == px@.len() / 4,
                    len == f.len(),
                    framebuffer.data@.len() == len,
                    framebuffer.width == old(framebuffer).width,
                    framebuffer.height == old(framebuffer).height,
                    i <= len,
                    i <= npix,
                    forall|k: int| 0 <= k < i ==> framebuffer.data@[k] == canvas_pixel(px@, k),
                    forall|k: int| i <= k < len ==> framebuffer.data@[k] == f[k],
                decreases len - i,
            {
                let c = canvas_color(px, i);
                framebuffer.data.set(i, c);
                i = i + 1;
            }
            assert(framebuffer.data@ =~= landscape_image(f, px@));
        },
        Orientation::LandscapeUpsideDown => {
            let mut i: usize = 0;
            while i < npix && i < len
                invariant
                    npix == px@.len() / 4,
                    len == f.len(),
                    framebuffer.data@.len() == len,
                    framebuffer.width == old(framebuffer).width,
                    framebuffer.height == old(framebuffer).height,
                    i <= len,
                    i <= npix,
                    forall|k: int|
                        len - i <= k < len ==> framebuffer.data@[k] == canvas_pixel(
                            px@,
                            len - 1 - k,
                        ),
                    forall|k: int| 0 <= k < len - i ==> framebuffer.data@[k] == f[k],
                decreases len - i,
            {
                let c = canvas_color(px, i);
                framebuffer.data.set(len - 1 - i, c);
                i = i + 1;
            }
            assert(framebuffer.data@ =~= upside_down_image(f, px@));
        },
        Orientation::Portrait | Orientation::PortraitUpsideDown => {
            let upside_down = match orientation {
                Orientation::PortraitUpsideDown => true,
                _ => false,
            };
            let mut y: u32 = 0;
            while y < ch
                invariant
                    npix == px@.len() / 4,
                    len == f.len(),
                    framebuffer.data@.len() == len,
                    framebuffer.width == old(framebuffer).width,
                    framebuffer.height == old(framebuffer).height,
                    (cw as int) * (ch as int) <= u32::MAX,
                    (cw as int) * 320 + (ch as int) <= u32::MAX,
                    y <= ch,
                    framebuffer.data@ == portrait_copy(
                        f,
                        px@,
                        cw as int,
                        ch as int,
                        y as int * cw as int,
                        upside_down,
                    ),
                decreases ch - y,
            {
                let mut x: u32 = 0;
                while x < cw
                    invariant
                        npix == px@.len() / 4,
                        len == f.len(),
                        framebuffer.data@.len() == len,
                        framebuffer.width == old(framebuffer).width,
                        framebuffer.height == old(framebuffer).height,
                        (cw as int) * (ch as int) <= u32::MAX,
                        (cw as int) * 320 + (ch as int) <= u32::MAX,
                        y < ch,
                        x <= cw,
                        framebuffer.data@ == portrait_copy(
                            f,
                            px@,
                            cw as int,
                            ch as int,
                            y as int * cw as int + x as int,
                            upside_down,
                        ),
                    decreases cw - x,
                {
                    assert((y as int) * (cw as int) + (x as int) < (cw as int) * (ch as int)) by (
                    nonlinear_arith)
                        requires
                            y < ch,
                            x < cw,
                    ;
                    let n: u32 = y * cw + x;
                    proof {
                        vstd::arithmetic::div_mod::lemma_fundamental_div_mod_converse(
                            n as int,
                            cw as int,
                            y as int,
                            x as int,
                        );
                        assert((x as int) * 320 <= ((cw as int) - 1) * 320) by (nonlinear_arith)
                            requires
                                x < cw,
                        ;
                    }
                    let dst: u32 = if upside_down {
                        (cw - 1 - x) * 320 + y
                    } else {
                        x * 320 + (ch - 1 - y)
                    };
                    let src = n as usize;
                    if src < npix && (dst as usize) < len {
                        let c = canvas_color(px, src);
                        framebuffer.data.set(dst as usize, c);
                    }
                    x = x + 1;
                }
                assert(((y + 1) as int) * (cw as int) == (y as int) * (cw as int) + (cw as int)) by (
                nonlinear_arith);
                y = y + 1;
            }
            assert((ch as int) * (cw as int) == (cw as int) * (ch as int)) by (nonlinear_arith);
        },
    }
}

/// A pixel written inside the image is what reading it gives back, and
/// every other pixel keeps its value.
pub proof fn law_set_pixel_then_get_pixel(
    v: FramebufferView,
    x: int,
    y: int,
    color: u16,
    x2: int,
    y2: int,
)
    requires
        v.pixels.len() == v.width as int * v.height as int,
        v.contains(x, y),
        v.contains(x2, y2),
    ensures
        (FramebufferView {
            pixels: v.pixels.update(pixel_index(v.width as int, x, y), color),
            ..v
        }).pixel(x, y) == color,
        x2 != x || y2 != y ==> (FramebufferView {
            pixels: v.pixels.update(pixel_index(v.width as int, x, y), color),
            ..v
        }).pixel(x2, y2) == v.pixel(x2, y2),
{
    lemma_pixel_index(v.width as int, v.height as int, x, y, x2, y2);
    lemma_pixel_index(v.width as int, v.height as int, x2, y2, x, y);
}

/// After clearing, every pixel inside the image has the clear colour.
pub proof fn law_clear_then_get_pixel(v: FramebufferView, color: u16, x: int, y: int)
    requires
        v.pixels.len() == v.width as int * v.height as int,
        v.contains(x, y),
    ensures
        (FramebufferView { pixels: Seq::new(v.pixels.len(), |i: int| color), ..v }).pixel(x, y)
            == color,
{
    lemma_pixel_index(v.width as int, v.height as int, x, y, x, y);
}

/// Rotating by 180 degrees twice gives the image back.
pub proof fn law_rotate_180_twice(pixels: Seq<u16>)
    ensures
        pixels.reverse().reverse() == pixels,
{
    assert(pixels.reverse().reverse() =~= pixels);
}

/// Reading the RGBA bytes that a framebuffer exports back into it
/// succeeds (they are four per pixel, the length `copy_from_rgba8` asks
/// for) and gives its pixels again.
pub proof fn law_rgba_round_trip(pixels: Seq<u16>)
    ensures
        rgba_bytes(pixels).len() == pixels.len() * 4,
        from_packed(rgba_bytes(pixels), 4) == pixels,
{
    let b = rgba_bytes(pixels);
    assert forall|i: int| 0 <= i < pixels.len() implies #[trigger] from_packed(b, 4)[i]
        == pixels[i] by {
        assert((i * 4) / 4 == i && (i * 4 + 1) / 4 == i && (i * 4 + 2) / 4 == i);
        assert((i * 4) % 4 == 0 && (i * 4 + 1) % 4 == 1 && (i * 4 + 2) % 4 == 2);
        law_rgb565_round_trip(pixels[i]);
    }
    assert(from_packed(b, 4) =~= pixels);
}

/// Rendering upside down is rendering straight and turning the result by
/// 180 degrees, when the canvas covers the framebuffer.
pub proof fn law_upside_down_is_rotated_landscape(f: Seq<u16>, px: Seq<u8>)
    requires
        px.len() / 4 >= f.len(),
    ensures
        upside_down_image(f, px) == landscape_image(f, px).reverse(),
{
    assert(upside_down_image(f, px) =~= landscape_image(f, px).reverse());
}

/// Whether framebuffer pixel `k` receives a pixel of a `cw` x `ch`
/// portrait canvas (its column within the 320-pixel row lies within the
/// canvas height and its row within the canvas width).
pub open spec fn portrait_hit(cw: int, ch: int, k: int) -> bool {
    k % 320 < ch && k / 320 < cw
}

/// The canvas pixel that lands on framebuffer pixel `k`: for the
/// clockwise turn the one at x = k / 320, y = ch - 1 - k % 320; for the
/// counter-clockwise turn the one at x = cw - 1 - k / 320, y = k % 320.
pub open spec fn portrait_source(cw: int, ch: int, k: int, upside_down: bool) -> int {
    if upside_down {
        (k % 320) * cw + (cw - 1 - k / 320)
    } else {
        (ch - 1 - k % 320) * cw + k / 320
    }
}

proof fn lemma_target_source(cw: int, ch: int, n: int, upside_down: bool)
    requires
        0 < cw,
        0 < ch <= 320,
        0 <= n < cw * ch,
    ensures
        0 <= portrait_target(cw, ch, n, upside_down),
        portrait_hit(cw, ch, portrait_target(cw, ch, n, upside_down)),
        portrait_source(cw, ch, portrait_target(cw, ch, n, upside_down), upside_down) == n,
{
    let y = n / cw;
    let x = n % cw;
    vstd::arithmetic::div_mod::lemma_fundamental_div_mod(n, cw);
    assert(0 <= x < cw);
    assert(0 <= y < ch) by (nonlinear_arith)
        requires
            0 < cw,
            0 <= n < cw * ch,
            n == cw * y + x,
            0 <= x < cw,
    ;
    let k = portrait_target(cw, ch, n, upside_down);
    if upside_down {
        assert(k == (cw - 1 - x) * 320 + y);
        vstd::arithmetic::div_mod::lemma_fundamental_div_mod_converse(k, 320, cw - 1 - x, y);
    } else {
        assert(k == x * 320 + (ch - 1 - y));
        vstd::arithmetic::div_mod::lemma_fundamental_div_mod_converse(k, 320, x, ch - 1 - y);
    }
    assert(y * cw + x == n) by (nonlinear_arith)
        requires
            n == cw * y + x,
    ;
}

proof fn lemma_source_target(cw: int, ch: int, k: int, upside_down: bool)
    requires
        0 < cw,
        0 < ch <= 320,
        0 <= k,
        portrait_hit(cw, ch, k),
    ensures
        0 <= portrait_source(cw, ch, k, upside_down) < cw * ch,
        portrait_target(cw, ch, portrait_source(cw, ch, k, upside_down), upside_down) == k,
{
    let r = k / 320;
    let d = k % 320;
    vstd::arithmetic::div_mod::lemma_fundamental_div_mod(k, 320);
    let m = portrait_source(cw, ch, k, upside_down);
    if upside_down {
        let q = d;
        let x = cw - 1 - r;
        assert(0 <= x < cw);
        assert(m == q * cw + x);
        assert(0 <= m < cw * ch) by (nonlinear_arith)
            requires
                m == q * cw + x,
                0 <= q < ch,
                0 <= x < cw,
        ;
        vstd::arithmetic::div_mod::lemma_fundamental_div_mod_converse(m, cw, q, x);
    } else {
        let q = ch - 1 - d;
        let x = r;
        assert(0 <= q < ch);
        assert(m == q * cw + x);
        assert(0 <= m < cw * ch) by (nonlinear_arith)
            requires
                m == q * cw + x,
                0 <= q < ch,
                0 <= x < cw,
        ;
        vstd::arithmetic::div_mod::lemma_fundamental_div_mod_converse(m, cw, q, x);
    }
}

proof fn lemma_portrait_copy_closed(
    f: Seq<u16>,
    px: Seq<u8>,
    cw: int,
    ch: int,
    n: int,
    upside_down: bool,
)
    requires
        0 < cw,
        0 < ch <= 320,
        0 <= n <= cw * ch,
    ensures
        portrait_copy(f, px, cw, ch, n, upside_down).len() == f.len(),
        forall|k: int|
            0 <= k < f.len() ==> #[trigger] portrait_copy(f, px, cw, ch, n, upside_down)[k] == (
            if portrait_hit(cw, ch, k) && portrait_source(cw, ch, k, upside_down) < n
                && portrait_source(cw, ch, k, upside_down) < px.len() / 4 {
                canvas_pixel(px, portrait_source(cw, ch, k, upside_down))
            } else {
                f[k]
            }),
    decreases n,
{
    if n > 0 {
        lemma_portrait_copy_closed(f, px, cw, ch, n - 1, upside_down);
        let t = portrait_target(cw, ch, n - 1, upside_down);
        lemma_target_source(cw, ch, n - 1, upside_down);
        assert forall|k: int| 0 <= k < f.len() implies #[trigger] portrait_copy(
            f,
            px,
            cw,
            ch,
            n,
            upside_down,
        )[k] == (if portrait_hit(cw, ch, k) && portrait_source(cw, ch, k, upside_down) < n
            && portrait_source(cw, ch, k, upside_down) < px.len() / 4 {
            canvas_pixel(px, portrait_source(cw, ch, k, upside_down))
        } else {
            f[k]
        }) by {
            if portrait_hit(cw, ch, k) {
                lemma_source_target(cw, ch, k, upside_down);
            }
        }
    }
}

/// Turning a portrait canvas into the framebuffer puts each canvas pixel
/// in its place: framebuffer pixel `k` shows the canvas pixel that the
/// turn takes there, or keeps its value when none does (for canvases at
/// most 320 pixels high, where no two canvas pixels meet).
pub proof fn law_portrait_turns_the_canvas(
    f: Seq<u16>,
    px: Seq<u8>,
    cw: int,
    ch: int,
    upside_down: bool,
    k: int,
)
    requires
        0 <= cw,
        0 <= ch <= 320,
        0 <= k < f.len(),
    ensures
        portrait_copy(f, px, cw, ch, cw * ch, upside_down)[k] == (if portrait_hit(cw, ch, k)
            && portrait_source(cw, ch, k, upside_down) < px.len() / 4 {
            canvas_pixel(px, portrait_source(cw, ch, k, upside_down))
        } else {
            f[k]
        }),
{
    if cw > 0 && ch > 0 {
        lemma_portrait_copy_closed(f, px, cw, ch, cw * ch, upside_down);
        if portrait_hit(cw, ch, k) {
            lemma_source_target(cw, ch, k, upside_down);
        }
    } else {
        assert(cw * ch == 0) by (nonlinear_arith)
            requires
                cw == 0 || ch == 0,
        ;
        vstd::arithmetic::div_mod::lemma_fundamental_div_mod(k, 320);
    }
}

/// The ASCII byte of hex digit `d` (0-15), upper or lower case.
pub open spec fn hex_char_of(d: nat, upper: bool) -> u8 {
    if d < 10 {
        (48 + d) as u8
    } else if upper {
        (55 + d) as u8
    } else {
        (87 + d) as u8
    }
}

/// The two hex digits of a byte, most significant first.
pub open spec fn hex_text_of(b: u8, upper: bool) -> Seq<u8> {
    seq![hex_char_of(b as nat / 16, upper), hex_char_of(b as nat % 16, upper)]
}

/// Each hex digit byte reads back as its digit.
proof fn lemma_hex_char_value(d: nat, upper: bool)
    requires
        d < 16,
    ensures
        hex_digit_value(hex_char_of(d, upper)) == Some(d as u8),
        hex_char_of(d, upper) != 35,
{
}

/// The colour text "RRGGBB" (with or without a leading `#`, digits in
/// either case) of the bytes r, g, b, written most significant digit
/// first, parses to the RGB565 colour of r, g, b.
pub proof fn law_hex_color_text(r: u8, g: u8, b: u8, upper: bool)
    ensures
        parse_hex_color_bytes(hex_text_of(r, upper) + hex_text_of(g, upper) + hex_text_of(b, upper))
            == Some(rgb565(r, g, b)),
        parse_hex_color_bytes(
            seq![35u8] + hex_text_of(r, upper) + hex_text_of(g, upper) + hex_text_of(b, upper),
        ) == Some(rgb565(r, g, b)),
{
    let t = hex_text_of(r, upper) + hex_text_of(g, upper) + hex_text_of(b, upper);
    lemma_hex_char_value(r as nat / 16, upper);
    lemma_hex_char_value(r as nat % 16, upper);
    lemma_hex_char_value(g as nat / 16, upper);
    lemma_hex_char_value(g as nat % 16, upper);
    lemma_hex_char_value(b as nat / 16, upper);
    lemma_hex_char_value(b as nat % 16, upper);
    assert(t.len() == 6);
    assert(t[0] == hex_char_of(r as nat / 16, upper));
    assert(strip_hashes(t) == t);
    let h = seq![35u8] + hex_text_of(r, upper) + hex_text_of(g, upper) + hex_text_of(b, upper);
    assert(h =~= seq![35u8] + t);
    assert(h.drop_first() =~= t);
    assert(strip_hashes(h) == t);
    assert(parse_hex_byte(t[0], t[1]) == Some(r));
    assert(parse_hex_byte(t[2], t[3]) == Some(g));
    assert(parse_hex_byte(t[4], t[5]) == Some(b));
}

} // verus!
