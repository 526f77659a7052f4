use vstd::prelude::*;

verus! {

/// Why a sprite sheet could not be turned into frames.
#[derive(Clone, Copy, Debug, PartialEq, Eq, Structural)]
pub enum LoadError {
    /// The pixel buffer does not hold four bytes for each pixel.
    BufferSize,
    /// A sheet was to be cut into zero frames.
    ZeroFrameCount,
    /// The frame count does not divide the sheet's width.
    UnevenFrames,
}

/// A decoded RGBA image: four bytes per pixel, rows top to bottom, pixels
/// left to right within a row.
pub struct Raster {
    pub width: u32,
    pub height: u32,
    pub rgba: Vec<u8>,
}

/// Row-major index of `(x, y)` in a grid `w` wide.
pub open spec fn grid_index(w: int, x: int, y: int) -> int {
    y * w + x
}

pub proof fn lemma_grid_index_bound(w: int, h: int, x: int, y: int)
    requires
        0 <= x < w,
        0 <= y < h,
    ensures
        0 <= grid_index(w, x, y) < w * h,
{
    assert(y * w + x < w * h) by (nonlinear_arith)
        requires 0 <= x < w, 0 <= y < h;
    assert(0 <= y * w) by (nonlinear_arith)
        requires 0 <= y, 0 <= w;
}

impl Raster {
    pub open spec fn wf(&self) -> bool {
        self.rgba@.len() == 4 * (self.width as int) * (self.height as int)
    }

    /// The `(r, g, b, a)` bytes of pixel `(x, y)`.
    pub open spec fn spec_pixel(&self, x: int, y: int) -> (u8, u8, u8, u8) {
        let i = 4 * grid_index(self.width as int, x, y);
        (self.rgba@[i], self.rgba@[i + 1], self.rgba@[i + 2], self.rgba@[i + 3])
    }

    /// Wraps a buffer, which must hold exactly four bytes per pixel.
    pub fn new(width: u32, height: u32, rgba: Vec<u8>) -> (r: Result<Raster, LoadError>)
        ensures
            r.is_ok() <==> rgba@.len() == 4 * (width as int) * (height as int),
            r matches Ok(ras) ==> ras.width == width && ras.height == height && ras.rgba@
                == rgba@ && ras.wf(),
            r matches Err(e) ==> e == LoadError::BufferSize,
    {
        assert((width as u128) * (height as u128) <= 0xffff_ffffu128 * 0xffff_ffffu128) by (nonlinear_arith)
            requires width <= 0xffff_ffffu32, height <= 0xffff_ffffu32;
        let need: u128 = 4 * ((width as u128) * (height as u128));
        assert(4 * (width as int) * (height as int) == 4 * ((width as int) * (height as int))) by (nonlinear_arith);
        if rgba.len() as u128 == need {
            Ok(Raster { width, height, rgba })
        } else {
            Err(LoadError::BufferSize)
        }
    }

    pub fn pixel(&self, x: u32, y: u32) -> (r: (u8, u8, u8, u8))
        requires
            self.wf(),
            x < self.width,
            y < self.height,
        ensures
            r == self.spec_pixel(x as int, y as int),
    {
        let n = self.rgba.len();
        proof {
            lemma_grid_index_bound(self.width as int, self.height as int, x as int, y as int);
            assert(4 * (self.width as int) * (self.height as int) == 4 * ((self.width as int) * (self.height as int))) by (nonlinear_arith);
            assert((y as int) * (self.width as int) <= (y as int) * (self.width as int) + x);
        }
        let i: usize = 4 * (y as usize * self.width as usize + x as usize);
        (self.rgba[i], self.rgba[i + 1], self.rgba[i + 2], self.rgba[i + 3])
    }
}

} // verus!
