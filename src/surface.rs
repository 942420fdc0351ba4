use vstd::prelude::*;
use crate::error::FilterError;
use crate::rect::IRect;

verus! {

/// The largest width or height of a raster image.
pub const MAX_DIMENSION: i32 = 32767;

/// A premultiplied RGBA pixel with 8-bit channels.
#[derive(Debug, Clone, Copy, PartialEq, Eq, Structural)]
pub struct Pixel {
    pub r: u8,
    pub g: u8,
    pub b: u8,
    pub a: u8,
}

impl Pixel {
    /// No colour channel exceeds the alpha channel, as premultiplication demands.
    pub open spec fn is_premultiplied(self) -> bool {
        self.r <= self.a && self.g <= self.a && self.b <= self.a
    }

    pub fn transparent() -> (p: Pixel)
        ensures
            p == (Pixel { r: 0, g: 0, b: 0, a: 0 }),
    {
        Pixel { r: 0, g: 0, b: 0, a: 0 }
    }
}

/// Whether the colour channels of an image are gamma-encoded or linear.
#[derive(Debug, Clone, Copy, PartialEq, Eq, Structural)]
pub enum SurfaceType {
    SRgb,
    LinearRgb,
}

/// A raster image of premultiplied pixels, stored row by row.
pub struct ImageSurface {
    width: usize,
    height: usize,
    data: Vec<Pixel>,
    surface_type: SurfaceType,
}

/// What an image is: its size, its encoding and its pixels row by row.
pub struct SurfaceView {
    pub width: int,
    pub height: int,
    pub surface_type: SurfaceType,
    pub pixels: Seq<Pixel>,
}

impl View for ImageSurface {
    type V = SurfaceView;

    open spec fn view(&self) -> SurfaceView {
        SurfaceView {
            width: self.spec_width(),
            height: self.spec_height(),
            surface_type: self.spec_type(),
            pixels: self.pixels(),
        }
    }
}

/// The pixel at `(x, y)` of an image.
pub open spec fn view_pixel(v: SurfaceView, x: int, y: int) -> Pixel {
    v.pixels[pixel_index(v.width, x, y)]
}

/// Row-major index of `(x, y)` in an image `width` pixels wide.
pub open spec fn pixel_index(width: int, x: int, y: int) -> int {
    y * width + x
}

pub proof fn lemma_pixel_index_bounds(width: int, height: int, x: int, y: int)
    requires
        0 <= x < width,
        0 <= y < height,
        height <= MAX_DIMENSION,
        width <= MAX_DIMENSION,
    ensures
        0 <= pixel_index(width, x, y) < width * height,
        width * height <= MAX_DIMENSION * MAX_DIMENSION,
{
    assert(width * height <= 32767 * 32767) by (nonlinear_arith)
        requires
            0 <= width <= 32767,
            0 <= height <= 32767,
    ;
    assert(y * width + x < width * height) by (nonlinear_arith)
        requires
            0 <= x < width,
            0 <= y < height,
    ;
    assert(0 <= y * width) by (nonlinear_arith)
        requires
            0 <= y,
            0 <= width,
    ;
}

impl ImageSurface {
    pub closed spec fn spec_width(&self) -> int {
        self.width as int
    }

    pub closed spec fn spec_height(&self) -> int {
        self.height as int
    }

    pub closed spec fn spec_type(&self) -> SurfaceType {
        self.surface_type
    }

    /// The pixels, row by row.
    pub closed spec fn pixels(&self) -> Seq<Pixel> {
        self.data@
    }

    pub open spec fn wf(&self) -> bool {
        &&& 0 <= self.spec_width() <= MAX_DIMENSION
        &&& 0 <= self.spec_height() <= MAX_DIMENSION
        &&& self.pixels().len() == self.spec_width() * self.spec_height()
    }

    pub open spec fn in_bounds(&self, x: int, y: int) -> bool {
        0 <= x < self.spec_width() && 0 <= y < self.spec_height()
    }

    /// The pixel at `(x, y)`.
    pub open spec fn pixel(&self, x: int, y: int) -> Pixel {
        self.pixels()[pixel_index(self.spec_width(), x, y)]
    }

    /// Both images have the same size.
    pub open spec fn same_size(&self, other: &ImageSurface) -> bool {
        self.spec_width() == other.spec_width() && self.spec_height() == other.spec_height()
    }

    /// Every pixel satisfies the premultiplication constraint.
    pub open spec fn all_premultiplied(&self) -> bool {
        forall|x: int, y: int| #[trigger]
            self.in_bounds(x, y) ==> self.pixel(x, y).is_premultiplied()
    }

    /// Creates a fully transparent image, or fails when a side is negative or too large.
    pub fn create(width: i32, height: i32, surface_type: SurfaceType) -> (r: Result<
        ImageSurface,
        FilterError,
    >)
        ensures
            (0 <= width <= MAX_DIMENSION && 0 <= height <= MAX_DIMENSION) <==> r.is_ok(),
            r.is_err() ==> r == Err::<ImageSurface, FilterError>(FilterError::OutputAllocationFailed),
            r matches Ok(s) ==> s.is_blank(width as int, height as int, surface_type),
    {
        if width < 0 || height < 0 || width > MAX_DIMENSION || height > MAX_DIMENSION {
            return Err(FilterError::OutputAllocationFailed);
        }
        Ok(ImageSurface::new_transparent(width, height, surface_type))
    }

    /// A well-formed, fully transparent image of the given size and encoding.
    pub open spec fn is_blank(&self, width: int, height: int, surface_type: SurfaceType) -> bool {
        &&& self.wf()
        &&& self.spec_width() == width
        &&& self.spec_height() == height
        &&& self.spec_type() == surface_type
        &&& forall|x: int, y: int| #[trigger]
            self.in_bounds(x, y) ==> self.pixel(x, y) == (Pixel { r: 0, g: 0, b: 0, a: 0 })
    }

    /// Creates a fully transparent image.
    pub fn new_transparent(width: i32, height: i32, surface_type: SurfaceType) -> (s: ImageSurface)
        requires
            0 <= width <= MAX_DIMENSION,
            0 <= height <= MAX_DIMENSION,
        ensures
            s.is_blank(width as int, height as int, surface_type),
    {
        let w = width as usize;
        let h = height as usize;
        assert(w * h <= 32767 * 32767) by (nonlinear_arith)
            requires
                w <= 32767,
                h <= 32767,
        ;
        let n: usize = w * h;
        let mut data: Vec<Pixel> = Vec::with_capacity(n);
        let mut i: usize = 0;
        while i < n
            invariant
                i <= n,
                data@.len() == i,
                forall|j: int| 0 <= j < i ==> data@[j] == (Pixel { r: 0, g: 0, b: 0, a: 0 }),
            decreases n - i,
        {
            data.push(Pixel::transparent());
            i = i + 1;
        }
        let s = ImageSurface { width: w, height: h, data, surface_type };
        assert forall|x: int, y: int| #[trigger] s.in_bounds(x, y) implies s.pixel(x, y) == (Pixel { r: 0, g: 0, b: 0, a: 0 }) by {
            lemma_pixel_index_bounds(w as int, h as int, x, y);
        }
        s
    }

    pub fn width(&self) -> (r: i32)
        requires
            self.wf(),
        ensures
            r == self.spec_width(),
    {
        self.width as i32
    }

    pub fn height(&self) -> (r: i32)
        requires
            self.wf(),
        ensures
            r == self.spec_height(),
    {
        self.height as i32
    }

    pub fn surface_type(&self) -> (r: SurfaceType)
        ensures
            r == self.spec_type(),
    {
        self.surface_type
    }

    /// The pixel at `(x, y)`.
    pub fn get_pixel(&self, x: u32, y: u32) -> (p: Pixel)
        requires
            self.wf(),
            self.in_bounds(x as int, y as int),
        ensures
            p == self.pixel(x as int, y as int),
    {
        proof {
            lemma_pixel_index_bounds(self.width as int, self.height as int, x as int, y as int);
        }
        self.data[y as usize * self.width + x as usize]
    }

    /// Replaces the pixel at `(x, y)`, leaving every other pixel as it was.
    pub fn set_pixel(&mut self, x: u32, y: u32, p: Pixel)
        requires
            old(self).wf(),
            old(self).in_bounds(x as int, y as int),
        ensures
            final(self).wf(),
            final(self).same_size(old(self)),
            final(self).spec_type() == old(self).spec_type(),
            final(self).pixel(x as int, y as int) == p,
            forall|i: int, j: int|
                #![trigger final(self).pixel(i, j)]
                final(self).in_bounds(i, j) && (i != x || j != y) ==> final(self).pixel(i, j)
                    == old(self).pixel(i, j),
    {
        proof {
            lemma_pixel_index_bounds(self.width as int, self.height as int, x as int, y as int);
        }
        let idx = y as usize * self.width + x as usize;
        self.data.set(idx, p);
        proof {
            assert forall|i: int, j: int|
                #![trigger self.pixel(i, j)]
                self.in_bounds(i, j) && (i != x || j != y) implies self.pixel(i, j) == old(
                self,
            ).pixel(i, j) by {
                lemma_pixel_index_bounds(self.width as int, self.height as int, i, j);
                lemma_index_injective(self.width as int, i, j, x as int, y as int);
            }
        }
    }

    /// Sets the tag that says how the colour channels are encoded.
    pub fn set_surface_type(&mut self, t: SurfaceType)
        ensures
            final(self).spec_type() == t,
            final(self).spec_width() == old(self).spec_width(),
            final(self).spec_height() == old(self).spec_height(),
            final(self).pixels() == old(self).pixels(),
    {
        self.surface_type = t;
    }

    /// A copy of this image.
    pub fn duplicate(&self) -> (r: ImageSurface)
        ensures
            r@ == self@,
    {
        let data = self.data.clone();
        proof {
            assert(data@ =~= self.data@);
        }
        ImageSurface { width: self.width, height: self.height, data, surface_type: self.surface_type }
    }
}

proof fn lemma_index_injective(width: int, i: int, j: int, x: int, y: int)
    requires
        0 <= i < width,
        0 <= x < width,
        0 <= j,
        0 <= y,
        (i != x || j != y),
    ensures
        pixel_index(width, i, j) != pixel_index(width, x, y),
{
    if j == y {
    } else if j < y {
        assert(j * width + width <= y * width) by (nonlinear_arith)
            requires
                j < y,
                0 <= width,
        ;
    } else {
        assert(y * width + width <= j * width) by (nonlinear_arith)
            requires
                y < j,
                0 <= width,
        ;
    }
}

} // verus!
