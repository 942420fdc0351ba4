use vstd::prelude::*;
use crate::fixed::{
    ceil_div, ceil_div_i128, floor_div, floor_div_i128, in_fixed_range, saturate, saturate_i128,
    FIXED_LIMIT, FIXED_ONE,
};
use crate::rect::IRect;

verus! {

/// An affine transform in fixed point, mapping `(x, y)` to
/// `(xx * x + xy * y + x0, yx * x + yy * y + y0)`.
#[derive(Debug, Clone, Copy, PartialEq, Eq, Structural)]
pub struct Matrix {
    pub xx: i64,
    pub yx: i64,
    pub xy: i64,
    pub yy: i64,
    pub x0: i64,
    pub y0: i64,
}

/// The fixed-point product `a * b`, rounded down and saturated.
pub open spec fn fixed_mul2(a: int, b: int, c: int, d: int) -> int {
    saturate(floor_div(a * b + c * d, FIXED_ONE as int))
}

impl Matrix {
    pub open spec fn wf(self) -> bool {
        &&& in_fixed_range(self.xx as int)
        &&& in_fixed_range(self.yx as int)
        &&& in_fixed_range(self.xy as int)
        &&& in_fixed_range(self.yy as int)
        &&& in_fixed_range(self.x0 as int)
        &&& in_fixed_range(self.y0 as int)
    }

    pub fn identity() -> (m: Matrix)
        ensures
            m == (Matrix { xx: FIXED_ONE, yx: 0, xy: 0, yy: FIXED_ONE, x0: 0, y0: 0 }),
            m.wf(),
    {
        Matrix { xx: FIXED_ONE, yx: 0, xy: 0, yy: FIXED_ONE, x0: 0, y0: 0 }
    }

    /// The transform that applies `a` first and then `b`.
    pub open spec fn spec_multiply(a: Matrix, b: Matrix) -> Matrix {
        Matrix {
            xx: fixed_mul2(a.xx as int, b.xx as int, a.yx as int, b.xy as int) as i64,
            yx: fixed_mul2(a.xx as int, b.yx as int, a.yx as int, b.yy as int) as i64,
            xy: fixed_mul2(a.xy as int, b.xx as int, a.yy as int, b.xy as int) as i64,
            yy: fixed_mul2(a.xy as int, b.yx as int, a.yy as int, b.yy as int) as i64,
            x0: saturate(
                floor_div(a.x0 * b.xx + a.y0 * b.xy, FIXED_ONE as int) + b.x0,
            ) as i64,
            y0: saturate(
                floor_div(a.x0 * b.yx + a.y0 * b.yy, FIXED_ONE as int) + b.y0,
            ) as i64,
        }
    }

    /// The transform that applies `a` first and then `b`.
    pub fn multiply(a: &Matrix, b: &Matrix) -> (m: Matrix)
        requires
            a.wf(),
            b.wf(),
        ensures
            m == Matrix::spec_multiply(*a, *b),
            m.wf(),
    {
        Matrix {
            xx: mul2(a.xx, b.xx, a.yx, b.xy, 0),
            yx: mul2(a.xx, b.yx, a.yx, b.yy, 0),
            xy: mul2(a.xy, b.xx, a.yy, b.xy, 0),
            yy: mul2(a.xy, b.yx, a.yy, b.yy, 0),
            x0: mul2(a.x0, b.xx, a.y0, b.xy, b.x0),
            y0: mul2(a.x0, b.yx, a.y0, b.yy, b.y0),
        }
    }

    /// The image of a point.
    pub open spec fn spec_transform_point(self, x: int, y: int) -> (int, int) {
        (
            saturate(floor_div(self.xx * x + self.xy * y, FIXED_ONE as int) + self.x0),
            saturate(floor_div(self.yx * x + self.yy * y, FIXED_ONE as int) + self.y0),
        )
    }

    /// The image of a point.
    pub fn transform_point(&self, x: i64, y: i64) -> (r: (i64, i64))
        requires
            self.wf(),
            in_fixed_range(x as int),
            in_fixed_range(y as int),
        ensures
            r.0 == self.spec_transform_point(x as int, y as int).0,
            r.1 == self.spec_transform_point(x as int, y as int).1,
            in_fixed_range(r.0 as int),
            in_fixed_range(r.1 as int),
    {
        (mul2(self.xx, x, self.xy, y, self.x0), mul2(self.yx, x, self.yy, y, self.y0))
    }

    /// The image of a distance: the transform without its translation.
    pub open spec fn spec_transform_distance(self, dx: int, dy: int) -> (int, int) {
        (
            fixed_mul2(self.xx as int, dx, self.xy as int, dy),
            fixed_mul2(self.yx as int, dx, self.yy as int, dy),
        )
    }

    /// The image of a distance: the transform without its translation.
    pub fn transform_distance(&self, dx: i64, dy: i64) -> (r: (i64, i64))
        requires
            self.wf(),
            in_fixed_range(dx as int),
            in_fixed_range(dy as int),
        ensures
            r.0 == self.spec_transform_distance(dx as int, dy as int).0,
            r.1 == self.spec_transform_distance(dx as int, dy as int).1,
            in_fixed_range(r.0 as int),
            in_fixed_range(r.1 as int),
    {
        (mul2(self.xx, dx, self.xy, dy, 0), mul2(self.yx, dx, self.yy, dy, 0))
    }
}

/// `saturate(floor((a * b + c * d) / FIXED_ONE) + t)`.
fn mul2(a: i64, b: i64, c: i64, d: i64, t: i64) -> (r: i64)
    requires
        in_fixed_range(a as int),
        in_fixed_range(b as int),
        in_fixed_range(c as int),
        in_fixed_range(d as int),
        in_fixed_range(t as int),
    ensures
        r == saturate(floor_div(a * b + c * d, FIXED_ONE as int) + t),
        in_fixed_range(r as int),
{
    proof {
        lemma_product_bound(a as int, b as int);
        lemma_product_bound(c as int, d as int);
    }
    let p: i128 = a as i128 * b as i128 + c as i128 * d as i128;
    let q = floor_div_i128(p, FIXED_ONE as i128);
    saturate_i128(q + t as i128)
}

proof fn lemma_product_bound(a: int, b: int)
    requires
        in_fixed_range(a),
        in_fixed_range(b),
    ensures
        -0x1000_0000_0000_0000_0000_0000 <= a * b <= 0x1000_0000_0000_0000_0000_0000,
{
    assert(-0x1000_0000_0000_0000_0000_0000 <= a * b <= 0x1000_0000_0000_0000_0000_0000)
        by (nonlinear_arith)
        requires
            -0x4000_0000_0000 <= a <= 0x4000_0000_0000,
            -0x4000_0000_0000 <= b <= 0x4000_0000_0000,
    ;
}

/// A rectangle in fixed-point user units, by origin and size.
#[derive(Debug, Clone, Copy, PartialEq, Eq, Structural)]
pub struct Rectangle {
    pub x: i64,
    pub y: i64,
    pub width: i64,
    pub height: i64,
}

impl Rectangle {
    pub open spec fn wf(self) -> bool {
        &&& in_fixed_range(self.x as int)
        &&& in_fixed_range(self.y as int)
        &&& in_fixed_range(self.width as int)
        &&& in_fixed_range(self.height as int)
    }
}

/// An axis-aligned box in fixed-point device units, by its corners.
#[derive(Debug, Clone, Copy, PartialEq, Eq, Structural)]
pub struct BoundingBox {
    pub x0: i64,
    pub y0: i64,
    pub x1: i64,
    pub y1: i64,
}

pub open spec fn min2(a: int, b: int) -> int {
    if a <= b {
        a
    } else {
        b
    }
}

pub open spec fn max2(a: int, b: int) -> int {
    if a >= b {
        a
    } else {
        b
    }
}

impl BoundingBox {
    pub open spec fn wf(self) -> bool {
        &&& in_fixed_range(self.x0 as int)
        &&& in_fixed_range(self.y0 as int)
        &&& in_fixed_range(self.x1 as int)
        &&& in_fixed_range(self.y1 as int)
        &&& self.x0 <= self.x1
        &&& self.y0 <= self.y1
    }

    /// The smallest box that holds the image of `r` under `m`: the image of each corner is
    /// taken, and the extremes of those.
    pub open spec fn spec_from_rect(m: Matrix, r: Rectangle) -> BoundingBox {
        let xr = saturate(r.x + r.width);
        let yb = saturate(r.y + r.height);
        let p1 = m.spec_transform_point(r.x as int, r.y as int);
        let p2 = m.spec_transform_point(xr, r.y as int);
        let p3 = m.spec_transform_point(r.x as int, yb);
        let p4 = m.spec_transform_point(xr, yb);
        BoundingBox {
            x0: min2(min2(p1.0, p2.0), min2(p3.0, p4.0)) as i64,
            y0: min2(min2(p1.1, p2.1), min2(p3.1, p4.1)) as i64,
            x1: max2(max2(p1.0, p2.0), max2(p3.0, p4.0)) as i64,
            y1: max2(max2(p1.1, p2.1), max2(p3.1, p4.1)) as i64,
        }
    }

    pub proof fn lemma_from_rect_wf(m: Matrix, r: Rectangle)
        requires
            m.wf(),
            r.wf(),
        ensures
            BoundingBox::spec_from_rect(m, r).wf(),
    {
    }

    pub proof fn lemma_clip_wf(a: BoundingBox, b: BoundingBox)
        requires
            a.wf(),
            b.wf(),
        ensures
            a.spec_clip(b).wf(),
    {
    }

    /// The smallest box that holds the image of `r` under `m`.
    pub fn from_rect(m: &Matrix, r: &Rectangle) -> (b: BoundingBox)
        requires
            m.wf(),
            r.wf(),
        ensures
            b == BoundingBox::spec_from_rect(*m, *r),
            b.wf(),
    {
        let xr = saturate_i128(r.x as i128 + r.width as i128);
        let yb = saturate_i128(r.y as i128 + r.height as i128);
        let p1 = m.transform_point(r.x, r.y);
        let p2 = m.transform_point(xr, r.y);
        let p3 = m.transform_point(r.x, yb);
        let p4 = m.transform_point(xr, yb);
        BoundingBox {
            x0: min_i64(min_i64(p1.0, p2.0), min_i64(p3.0, p4.0)),
            y0: min_i64(min_i64(p1.1, p2.1), min_i64(p3.1, p4.1)),
            x1: max_i64(max_i64(p1.0, p2.0), max_i64(p3.0, p4.0)),
            y1: max_i64(max_i64(p1.1, p2.1), max_i64(p3.1, p4.1)),
        }
    }

    /// The intersection of two boxes; the empty box at the origin when they do not overlap.
    pub open spec fn spec_clip(self, other: BoundingBox) -> BoundingBox {
        let x0 = max2(self.x0 as int, other.x0 as int);
        let y0 = max2(self.y0 as int, other.y0 as int);
        let x1 = min2(self.x1 as int, other.x1 as int);
        let y1 = min2(self.y1 as int, other.y1 as int);
        if x1 > x0 && y1 > y0 {
            BoundingBox { x0: x0 as i64, y0: y0 as i64, x1: x1 as i64, y1: y1 as i64 }
        } else {
            BoundingBox { x0: 0, y0: 0, x1: 0, y1: 0 }
        }
    }

    /// The intersection of two boxes; the empty box at the origin when they do not overlap.
    pub fn clip(&self, other: &BoundingBox) -> (b: BoundingBox)
        requires
            self.wf(),
            other.wf(),
        ensures
            b == self.spec_clip(*other),
            b.wf(),
    {
        let x0 = max_i64(self.x0, other.x0);
        let y0 = max_i64(self.y0, other.y0);
        let x1 = min_i64(self.x1, other.x1);
        let y1 = min_i64(self.y1, other.y1);
        if x1 > x0 && y1 > y0 {
            BoundingBox { x0, y0, x1, y1 }
        } else {
            BoundingBox { x0: 0, y0: 0, x1: 0, y1: 0 }
        }
    }

    /// The pixels that the box touches: corners rounded outward to whole pixels.
    pub open spec fn spec_to_irect(self) -> IRect {
        IRect {
            x0: floor_div(self.x0 as int, FIXED_ONE as int) as i32,
            y0: floor_div(self.y0 as int, FIXED_ONE as int) as i32,
            x1: ceil_div(self.x1 as int, FIXED_ONE as int) as i32,
            y1: ceil_div(self.y1 as int, FIXED_ONE as int) as i32,
        }
    }

    /// The pixels that the box touches: corners rounded outward to whole pixels.
    pub fn to_irect(&self) -> (r: IRect)
        requires
            self.wf(),
        ensures
            r == self.spec_to_irect(),
            r.wf(),
    {
        let x0 = floor_div_i128(self.x0 as i128, FIXED_ONE as i128);
        let y0 = floor_div_i128(self.y0 as i128, FIXED_ONE as i128);
        let x1 = ceil_div_i128(self.x1 as i128, FIXED_ONE as i128);
        let y1 = ceil_div_i128(self.y1 as i128, FIXED_ONE as i128);
        proof {
            lemma_div_range(self.x0 as int);
            lemma_div_range(self.y0 as int);
            lemma_div_range(-self.x1);
            lemma_div_range(-self.y1);
            lemma_floor_div_monotone(self.x0 as int, self.x1 as int);
            lemma_floor_div_monotone(self.y0 as int, self.y1 as int);
        }
        IRect { x0: x0 as i32, y0: y0 as i32, x1: x1 as i32, y1: y1 as i32 }
    }
}

proof fn lemma_div_range(v: int)
    requires
        in_fixed_range(v),
    ensures
        -0x4000_0000 <= floor_div(v, FIXED_ONE as int) <= 0x4000_0000,
{
}

proof fn lemma_floor_div_monotone(a: int, b: int)
    requires
        a <= b,
    ensures
        floor_div(a, FIXED_ONE as int) <= ceil_div(b, FIXED_ONE as int),
{
    vstd::arithmetic::div_mod::lemma_div_is_ordered(a, b, FIXED_ONE as int);
    assert(floor_div(b, FIXED_ONE as int) <= ceil_div(b, FIXED_ONE as int));
}

fn min_i64(a: i64, b: i64) -> (r: i64)
    ensures
        r == min2(a as int, b as int),
{
    if a <= b {
        a
    } else {
        b
    }
}

fn max_i64(a: i64, b: i64) -> (r: i64)
    ensures
        r == max2(a as int, b as int),
{
    if a >= b {
        a
    } else {
        b
    }
}

} // verus!
