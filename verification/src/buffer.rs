//! Pixel buffers: a 3-channel color buffer and a single-channel
//! depth/gray buffer, both row-major with row 0 at the visual bottom.
//! The same types serve as render targets and as texture maps.

use vstd::prelude::*;

use crate::fx::sdiv;
use crate::fx::FX_ONE;

verus! {

/// Largest canvas or texture dimension the pipeline accepts; keeps every
/// pixel coordinate well inside the fixed-point range.
pub const MAX_DIM: usize = 16384;

/// One 8-bit-per-channel color.
#[derive(Clone, Copy, PartialEq, Eq, Structural, Debug)]
pub struct Rgb {
    pub r: u8,
    pub g: u8,
    pub b: u8,
}

/// A 3-channel pixel grid.
#[derive(Clone, Debug)]
pub struct RgbBuffer {
    width: usize,
    height: usize,
    data: Vec<Rgb>,
}

/// A 1-channel pixel grid (depth values, specular exponents).
#[derive(Clone, Debug)]
pub struct GrayBuffer {
    width: usize,
    height: usize,
    data: Vec<u8>,
}

/// The flat index of pixel `(x, y)` in a grid `w` pixels wide.
pub open spec fn pix_index(w: int, x: int, y: int) -> int {
    y * w + x
}

/// The texel column/row for one fixed-point UV component against a grid
/// dimension: `trunc(u * dim)` in real units.
pub open spec fn uv_index_s(u: i64, dim: int) -> int {
    sdiv((u as int) * dim, FX_ONE as int)
}

/// Truncate a fixed-point value to whole units (`trunc(v / 65536)`).
pub open spec fn fx_trunc_s(v: i64) -> int {
    sdiv(v as int, FX_ONE as int)
}

/// The pixel count of a grid, with its compile-range bound.
fn grid_size(width: usize, height: usize) -> (r: usize)
    requires
        width <= MAX_DIM,
        height <= MAX_DIM,
    ensures
        r == width * height,
        r <= 0x1000_0000,
{
    proof {
        assert(width * height <= 0x1000_0000) by (nonlinear_arith)
            requires
                width as int <= 0x4000,
                height as int <= 0x4000,
        {}
    }
    width * height
}

/// Truncate a fixed-point value to whole units.
pub fn fx_trunc(v: i64) -> (r: i64)
    ensures
        r as int == fx_trunc_s(v),
        -0x8000_0000_0000 <= r <= 0x8000_0000_0000,
{
    proof {
        crate::fx::lemma_sdiv_within(v as int, FX_ONE as int, 0x8000_0000_0000int);
    }
    let q: i128 = crate::fx::sdiv128(v as i128, 65536);
    q as i64
}

impl RgbBuffer {
    /// Dimensions within range and exactly one color per pixel.
    pub open spec fn wf(&self) -> bool {
        &&& self.spec_width() <= MAX_DIM
        &&& self.spec_height() <= MAX_DIM
        &&& self.view_data().len() == self.spec_width() * self.spec_height()
    }

    pub closed spec fn spec_width(&self) -> int {
        self.width as int
    }

    pub closed spec fn spec_height(&self) -> int {
        self.height as int
    }

    pub closed spec fn view_data(&self) -> Seq<Rgb> {
        self.data@
    }

    /// An all-black buffer of the given dimensions.
    pub fn new(width: usize, height: usize) -> (r: RgbBuffer)
        requires
            width <= MAX_DIM,
            height <= MAX_DIM,
        ensures
            r.wf(),
            r.spec_width() == width,
            r.spec_height() == height,
            r.view_data() == Seq::new((width * height) as nat, |i: int| Rgb { r: 0, g: 0, b: 0 }),
    {
        let n = grid_size(width, height);
        let mut data: Vec<Rgb> = Vec::new();
        let mut i: usize = 0;
        while i < n
            invariant
                i <= n,
                data@.len() == i,
                forall|k: int| 0 <= k < i ==> data@[k] == (Rgb { r: 0, g: 0, b: 0 }),
            decreases n - i,
        {
            data.push(Rgb { r: 0, g: 0, b: 0 });
            i += 1;
        }
        proof {
            assert(data@ =~= Seq::new((width * height) as nat, |i: int| Rgb { r: 0, g: 0, b: 0 }));
        }
        RgbBuffer { width, height, data }
    }

    /// Build a buffer from raw parts (a decoded texture); `None` when
    /// the pixel count does not match the dimensions.
    pub fn from_pixels(width: usize, height: usize, data: Vec<Rgb>) -> (r: Option<RgbBuffer>)
        ensures
            r is Some <==> (width <= MAX_DIM && height <= MAX_DIM && data@.len() == width
                * height),
            r is Some ==> {
                let b = r->Some_0;
                &&& b.wf()
                &&& b.spec_width() == width
                &&& b.spec_height() == height
                &&& b.view_data() == data@
            },
    {
        if width <= MAX_DIM && height <= MAX_DIM {
            if data.len() == grid_size(width, height) {
                Some(RgbBuffer { width, height, data })
            } else {
                None
            }
        } else {
            None
        }
    }

    pub fn width(&self) -> (r: usize)
        ensures
            r as int == self.spec_width(),
    {
        self.width
    }

    pub fn height(&self) -> (r: usize)
        ensures
            r as int == self.spec_height(),
    {
        self.height
    }

    /// Read one pixel.
    pub fn get_pixel(&self, x: usize, y: usize) -> (r: Rgb)
        requires
            self.wf(),
            x < self.spec_width(),
            y < self.spec_height(),
        ensures
            r == self.view_data()[pix_index(self.spec_width(), x as int, y as int)],
    {
        proof {
            crate::buffer::lemma_pix_index_bounds(
                self.spec_width(),
                self.spec_height(),
                x as int,
                y as int,
            );
        }
        self.data[y * self.width + x]
    }

    /// Overwrite one pixel.
    pub fn put_pixel(&mut self, x: usize, y: usize, c: Rgb)
        requires
            old(self).wf(),
            x < old(self).spec_width(),
            y < old(self).spec_height(),
        ensures
            final(self).wf(),
            final(self).spec_width() == old(self).spec_width(),
            final(self).spec_height() == old(self).spec_height(),
            final(self).view_data() == old(self).view_data().update(
                pix_index(old(self).spec_width(), x as int, y as int),
                c,
            ),
    {
        proof {
            crate::buffer::lemma_pix_index_bounds(
                self.spec_width(),
                self.spec_height(),
                x as int,
                y as int,
            );
        }
        let idx = y * self.width + x;
        self.data.set(idx, c);
    }

    /// Sample as a texture at fixed-point UV coordinates; `None` exactly
    /// when the scaled coordinate leaves the grid.
    pub open spec fn sample_s(&self, u: i64, v: i64) -> Option<Rgb> {
        let sx = uv_index_s(u, self.spec_width());
        let sy = uv_index_s(v, self.spec_height());
        if 0 <= sx < self.spec_width() && 0 <= sy < self.spec_height() {
            Some(self.view_data()[pix_index(self.spec_width(), sx, sy)])
        } else {
            None
        }
    }

    /// Sample as a texture at fixed-point UV coordinates.
    pub fn sample(&self, u: i64, v: i64) -> (r: Option<Rgb>)
        requires
            self.wf(),
        ensures
            r == self.sample_s(u, v),
    {
        let sx = uv_index(u, self.width);
        let sy = uv_index(v, self.height);
        if 0 <= sx && sx < self.width as i64 && 0 <= sy && sy < self.height as i64 {
            Some(self.get_pixel(sx as usize, sy as usize))
        } else {
            None
        }
    }
}

impl GrayBuffer {
    /// Dimensions within range and exactly one value per pixel.
    pub open spec fn wf(&self) -> bool {
        &&& self.spec_width() <= MAX_DIM
        &&& self.spec_height() <= MAX_DIM
        &&& self.view_data().len() == self.spec_width() * self.spec_height()
    }

    pub closed spec fn spec_width(&self) -> int {
        self.width as int
    }

    pub closed spec fn spec_height(&self) -> int {
        self.height as int
    }

    pub closed spec fn view_data(&self) -> Seq<u8> {
        self.data@
    }

    /// An all-zero buffer of the given dimensions.
    pub fn new(width: usize, height: usize) -> (r: GrayBuffer)
        requires
            width <= MAX_DIM,
            height <= MAX_DIM,
        ensures
            r.wf(),
            r.spec_width() == width,
            r.spec_height() == height,
            r.view_data() == Seq::new((width * height) as nat, |i: int| 0u8),
    {
        let n = grid_size(width, height);
        let mut data: Vec<u8> = Vec::new();
        let mut i: usize = 0;
        while i < n
            invariant
                i <= n,
                data@.len() == i,
                forall|k: int| 0 <= k < i ==> data@[k] == 0u8,
            decreases n - i,
        {
            data.push(0u8);
            i += 1;
        }
        proof {
            assert(data@ =~= Seq::new((width * height) as nat, |i: int| 0u8));
        }
        GrayBuffer { width, height, data }
    }

    /// Build a buffer from raw parts; `None` when the value count does
    /// not match the dimensions.
    pub fn from_pixels(width: usize, height: usize, data: Vec<u8>) -> (r: Option<GrayBuffer>)
        ensures
            r is Some <==> (width <= MAX_DIM && height <= MAX_DIM && data@.len() == width
                * height),
            r is Some ==> {
                let b = r->Some_0;
                &&& b.wf()
                &&& b.spec_width() == width
                &&& b.spec_height() == height
                &&& b.view_data() == data@
            },
    {
        if width <= MAX_DIM && height <= MAX_DIM {
            if data.len() == grid_size(width, height) {
                Some(GrayBuffer { width, height, data })
            } else {
                None
            }
        } else {
            None
        }
    }

    pub fn width(&self) -> (r: usize)
        ensures
            r as int == self.spec_width(),
    {
        self.width
    }

    pub fn height(&self) -> (r: usize)
        ensures
            r as int == self.spec_height(),
    {
        self.height
    }

    /// Read one value.
    pub fn get_pixel(&self, x: usize, y: usize) -> (r: u8)
        requires
            self.wf(),
            x < self.spec_width(),
            y < self.spec_height(),
        ensures
            r == self.view_data()[pix_index(self.spec_width(), x as int, y as int)],
    {
        proof {
            crate::buffer::lemma_pix_index_bounds(
                self.spec_width(),
                self.spec_height(),
                x as int,
                y as int,
            );
        }
        self.data[y * self.width + x]
    }

    /// Overwrite one value.
    pub fn put_pixel(&mut self, x: usize, y: usize, v: u8)
        requires
            old(self).wf(),
            x < old(self).spec_width(),
            y < old(self).spec_height(),
        ensures
            final(self).wf(),
            final(self).spec_width() == old(self).spec_width(),
            final(self).spec_height() == old(self).spec_height(),
            final(self).view_data() == old(self).view_data().update(
                pix_index(old(self).spec_width(), x as int, y as int),
                v,
            ),
    {
        proof {
            crate::buffer::lemma_pix_index_bounds(
                self.spec_width(),
                self.spec_height(),
                x as int,
                y as int,
            );
        }
        let idx = y * self.width + x;
        self.data.set(idx, v);
    }

    /// Sample as a texture at fixed-point UV coordinates; `None` exactly
    /// when the scaled coordinate leaves the grid.
    pub open spec fn sample_s(&self, u: i64, v: i64) -> Option<u8> {
        let sx = uv_index_s(u, self.spec_width());
        let sy = uv_index_s(v, self.spec_height());
        if 0 <= sx < self.spec_width() && 0 <= sy < self.spec_height() {
            Some(self.view_data()[pix_index(self.spec_width(), sx, sy)])
        } else {
            None
        }
    }

    /// Sample as a texture at fixed-point UV coordinates.
    pub fn sample(&self, u: i64, v: i64) -> (r: Option<u8>)
        requires
            self.wf(),
        ensures
            r == self.sample_s(u, v),
    {
        let sx = uv_index(u, self.width);
        let sy = uv_index(v, self.height);
        if 0 <= sx && sx < self.width as i64 && 0 <= sy && sy < self.height as i64 {
            Some(self.get_pixel(sx as usize, sy as usize))
        } else {
            None
        }
    }

    /// Read at truncated fixed-point screen coordinates; `None` exactly
    /// when the point leaves the grid.
    pub open spec fn at_screen_s(&self, x: i64, y: i64) -> Option<u8> {
        let sx = fx_trunc_s(x);
        let sy = fx_trunc_s(y);
        if 0 <= sx < self.spec_width() && 0 <= sy < self.spec_height() {
            Some(self.view_data()[pix_index(self.spec_width(), sx, sy)])
        } else {
            None
        }
    }

    /// Read at truncated fixed-point screen coordinates.
    pub fn at_screen(&self, x: i64, y: i64) -> (r: Option<u8>)
        requires
            self.wf(),
        ensures
            r == self.at_screen_s(x, y),
    {
        let sx = fx_trunc(x);
        let sy = fx_trunc(y);
        if 0 <= sx && sx < self.width as i64 && 0 <= sy && sy < self.height as i64 {
            Some(self.get_pixel(sx as usize, sy as usize))
        } else {
            None
        }
    }
}

/// A pixel within the grid has its flat index within the data.
pub proof fn lemma_pix_index_bounds(w: int, h: int, x: int, y: int)
    requires
        0 <= x < w <= MAX_DIM,
        0 <= y < h <= MAX_DIM,
    ensures
        0 <= pix_index(w, x, y) < w * h,
        w * h <= 0x1000_0000,
{
    assert(0 <= y * w + x < w * h && w * h <= 0x1000_0000) by (nonlinear_arith)
        requires
            0 <= x < w <= 0x4000,
            0 <= y < h <= 0x4000,
    {}
}

/// A pixel within a positive grid has its flat index within the data,
/// with no bound asked of the dimensions.
pub proof fn lemma_pix_index_bounds2(w: int, h: int, x: int, y: int)
    requires
        0 <= x < w,
        0 <= y < h,
    ensures
        0 <= pix_index(w, x, y) < w * h,
{
    assert(0 <= y * w + x < w * h) by (nonlinear_arith)
        requires
            0 <= x < w,
            0 <= y < h,
    {}
}

/// The texel index for one fixed-point UV component (`trunc(u * dim)`).
fn uv_index(u: i64, dim: usize) -> (r: i64)
    requires
        dim <= MAX_DIM,
    ensures
        r as int == uv_index_s(u, dim as int),
{
    proof {
        assert((u as int) * (dim as int) <= 0x2000_0000_0000_0000int * 0x10000int
            && (u as int) * (dim as int) >= -0x2000_0000_0000_0000int * 0x10000int)
            by (nonlinear_arith)
            requires
                -0x8000_0000_0000_0000 <= u as int <= 0x7fff_ffff_ffff_ffff,
                0 <= dim as int <= 0x4000,
        {}
        crate::fx::lemma_sdiv_within((u as int) * (dim as int), FX_ONE as int, 0x2000_0000_0000_0000int);
    }
    let p: i128 = (u as i128) * (dim as i128);
    let q: i128 = crate::fx::sdiv128(p, 65536);
    q as i64
}

} // verus!
