//! The icon bitmap: a fixed-size grid of RGBA pixels, and its conversion to the
//! display server's native byte order.
use vstd::prelude::*;

verus! {

/// Width and height, in pixels, of the square tray icon.
pub const ICON_SIZE: u32 = 24;

/// Length in bytes of an icon in the display server's byte order.
pub const ICON_BYTES: usize = 2304;

/// Grey level of the icon's background (red, green and blue alike).
pub const BACKGROUND_LEVEL: u8 = 35;

/// Grey level of the glyphs drawn on the icon (red, green and blue alike).
pub const FOREGROUND_LEVEL: u8 = 255;

/// One pixel: red, green, blue and alpha.
#[derive(Clone, Copy, PartialEq, Eq, Structural, Debug)]
pub struct Rgba {
    pub r: u8,
    pub g: u8,
    pub b: u8,
    pub a: u8,
}

/// The four bytes of one pixel in the native order: blue, green, red, then an
/// unused zero byte.
pub open spec fn bgrx_pixel(p: Rgba) -> Seq<u8> {
    seq![p.b, p.g, p.r, 0u8]
}

/// A row-major sequence of pixels in the native byte order.
pub open spec fn bgrx_of(pixels: Seq<Rgba>) -> Seq<u8>
    decreases pixels.len(),
{
    if pixels.len() == 0 {
        Seq::empty()
    } else {
        bgrx_of(pixels.drop_last()) + bgrx_pixel(pixels.last())
    }
}

/// Four bytes per pixel.
pub proof fn bgrx_len(pixels: Seq<Rgba>)
    ensures
        bgrx_of(pixels).len() == 4 * pixels.len(),
    decreases pixels.len(),
{
    if pixels.len() > 0 {
        bgrx_len(pixels.drop_last());
    }
}

/// The background pixel: opaque, in the background grey.
pub open spec fn background_pixel() -> Rgba {
    Rgba { r: BACKGROUND_LEVEL, g: BACKGROUND_LEVEL, b: BACKGROUND_LEVEL, a: 255 }
}

/// A width × height grid of pixels, stored row by row.
pub struct IconImage {
    width: u32,
    height: u32,
    pixels: Vec<Rgba>,
}

impl IconImage {
    pub closed spec fn spec_width(&self) -> nat {
        self.width as nat
    }

    pub closed spec fn spec_height(&self) -> nat {
        self.height as nat
    }

    /// The pixels, row by row.
    pub closed spec fn spec_pixels(&self) -> Seq<Rgba> {
        self.pixels@
    }

    pub closed spec fn wf(&self) -> bool {
        self.pixels@.len() == self.width as nat * self.height as nat
    }

    /// An image of the given size with every pixel set to `color`.
    pub fn from_pixel(width: u32, height: u32, color: Rgba) -> (r: IconImage)
        requires
            width as nat * height as nat <= usize::MAX,
        ensures
            r.wf(),
            r.spec_width() == width,
            r.spec_height() == height,
            r.spec_pixels() == Seq::new(width as nat * height as nat, |i: int| color),
    {
        let n: usize = (width as usize) * (height as usize);
        let mut pixels: Vec<Rgba> = Vec::new();
        let mut i: usize = 0;
        while i < n
            invariant
                i <= n,
                pixels@ == Seq::new(i as nat, |k: int| color),
            decreases n - i,
        {
            pixels.push(color);
            i = i + 1;
            assert(pixels@ =~= Seq::new(i as nat, |k: int| color));
        }
        IconImage { width, height, pixels }
    }

    /// A blank icon: ICON_SIZE × ICON_SIZE pixels of opaque background.
    pub fn blank() -> (r: IconImage)
        ensures
            r.wf(),
            r.spec_width() == ICON_SIZE,
            r.spec_height() == ICON_SIZE,
            r.spec_pixels() == Seq::new(
                ICON_SIZE as nat * ICON_SIZE as nat,
                |i: int| background_pixel(),
            ),
    {
        let bg = Rgba { r: BACKGROUND_LEVEL, g: BACKGROUND_LEVEL, b: BACKGROUND_LEVEL, a: 255 };
        IconImage::from_pixel(ICON_SIZE, ICON_SIZE, bg)
    }

    pub fn width(&self) -> (r: u32)
        ensures
            r == self.spec_width(),
    {
        self.width
    }

    pub fn height(&self) -> (r: u32)
        ensures
            r == self.spec_height(),
    {
        self.height
    }

    fn index_of(&self, x: u32, y: u32) -> (i: usize)
        requires
            self.wf(),
            x < self.spec_width(),
            y < self.spec_height(),
        ensures
            i == y * self.spec_width() + x,
            i < self.spec_pixels().len(),
    {
        let ghost w = self.width as int;
        let ghost h = self.height as int;
        proof {
            assert(y * w + x < w * h && 0 <= y * w) by (nonlinear_arith)
                requires
                    0 <= x < w,
                    0 <= y < h,
            ;
        }
        assert(self.pixels@.len() == self.pixels.len());
        (y as usize) * (self.width as usize) + (x as usize)
    }

    /// The pixel in column `x` of row `y`.
    pub fn get_pixel(&self, x: u32, y: u32) -> (r: Rgba)
        requires
            self.wf(),
            x < self.spec_width(),
            y < self.spec_height(),
        ensures
            r == self.spec_pixels()[y * self.spec_width() + x],
    {
        let i = self.index_of(x, y);
        self.pixels[i]
    }

    /// Sets the pixel in column `x` of row `y` to `color` when that place lies
    /// inside the image; a place outside it is left alone.
    pub fn put_pixel_clipped(&mut self, x: u32, y: u32, color: Rgba)
        requires
            old(self).wf(),
        ensures
            final(self).wf(),
            final(self).spec_width() == old(self).spec_width(),
            final(self).spec_height() == old(self).spec_height(),
            final(self).spec_pixels() == if x < old(self).spec_width() && y < old(
                self,
            ).spec_height() {
                old(self).spec_pixels().update(y * old(self).spec_width() + x, color)
            } else {
                old(self).spec_pixels()
            },
    {
        if x < self.width && y < self.height {
            let i = self.index_of(x, y);
            self.pixels.set(i, color);
        }
    }

    /// The image in the display server's native byte order: per pixel blue,
    /// green, red and a zero byte, row by row.
    pub fn to_bgrx(&self) -> (r: Vec<u8>)
        ensures
            r@ == bgrx_of(self.spec_pixels()),
            r@.len() == 4 * self.spec_pixels().len(),
    {
        let mut out: Vec<u8> = Vec::new();
        let mut i: usize = 0;
        while i < self.pixels.len()
            invariant
                i <= self.pixels@.len(),
                out@ == bgrx_of(self.pixels@.take(i as int)),
            decreases self.pixels@.len() - i,
        {
            let p = self.pixels[i];
            out.push(p.b);
            out.push(p.g);
            out.push(p.r);
            out.push(0u8);
            proof {
                let next = self.pixels@.take(i + 1);
                assert(next.drop_last() =~= self.pixels@.take(i as int));
                assert(out@ =~= bgrx_of(next));
            }
            i = i + 1;
        }
        proof {
            assert(self.pixels@.take(i as int) =~= self.pixels@);
            bgrx_len(self.pixels@);
        }
        out
    }
}

} // verus!
