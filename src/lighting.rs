use vstd::prelude::*;
use crate::context::{FilterContext, FilterOutput, FilterResult};
use crate::error::FilterError;
use crate::fixed::{
    clamp, floor_div, floor_div_i128, in_fixed_range, round_div, round_div_i128, saturate,
    saturate_i128, FIXED_LIMIT, FIXED_ONE,
};
use crate::primitive::{copy_name, name_view, PrimitiveWithInput};
use crate::rect::IRect;
use crate::surface::{ImageSurface, Pixel, SurfaceType};

verus! {

/// Which finite-difference kernel estimates the surface normal at a pixel: one for each
/// corner, one for each edge, and one for the interior of the region.
#[derive(Debug, Clone, Copy, PartialEq, Eq, Structural)]
pub enum KernelKind {
    TopLeft,
    Top,
    TopRight,
    Left,
    Interior,
    Right,
    BottomLeft,
    Bottom,
    BottomRight,
}

/// The kernel for pixel `(x, y)` of `bounds`.
pub open spec fn spec_kernel_kind(bounds: IRect, x: int, y: int) -> KernelKind {
    let left = x == bounds.x0;
    let right = x == bounds.x1 - 1;
    if y == bounds.y0 {
        if left {
            KernelKind::TopLeft
        } else if right {
            KernelKind::TopRight
        } else {
            KernelKind::Top
        }
    } else if y == bounds.y1 - 1 {
        if left {
            KernelKind::BottomLeft
        } else if right {
            KernelKind::BottomRight
        } else {
            KernelKind::Bottom
        }
    } else {
        if left {
            KernelKind::Left
        } else if right {
            KernelKind::Right
        } else {
            KernelKind::Interior
        }
    }
}

pub open spec fn is_corner(k: KernelKind) -> bool {
    k == KernelKind::TopLeft || k == KernelKind::TopRight || k == KernelKind::BottomLeft || k
        == KernelKind::BottomRight
}

/// The kernel for pixel `(x, y)` of `bounds`.
pub fn kernel_kind(bounds: IRect, x: i32, y: i32) -> (k: KernelKind)
    requires
        bounds.x1 > i32::MIN,
        bounds.y1 > i32::MIN,
    ensures
        k == spec_kernel_kind(bounds, x as int, y as int),
{
    let left = x == bounds.x0;
    let right = x == bounds.x1 - 1;
    if y == bounds.y0 {
        if left {
            KernelKind::TopLeft
        } else if right {
            KernelKind::TopRight
        } else {
            KernelKind::Top
        }
    } else if y == bounds.y1 - 1 {
        if left {
            KernelKind::BottomLeft
        } else if right {
            KernelKind::BottomRight
        } else {
            KernelKind::Bottom
        }
    } else {
        if left {
            KernelKind::Left
        } else if right {
            KernelKind::Right
        } else {
            KernelKind::Interior
        }
    }
}

/// An unnormalized surface normal: the gradient of the height field is
/// `(factor_x * nx, factor_y * ny) / 255` times the surface scale, where each factor is the
/// fraction `num / den`.
#[derive(Debug, Clone, Copy, PartialEq, Eq, Structural)]
pub struct Normal {
    pub factor_x_num: i32,
    pub factor_x_den: i32,
    pub factor_y_num: i32,
    pub factor_y_den: i32,
    pub nx: i32,
    pub ny: i32,
}

/// The height of the surface at `(x, y)`: the alpha channel of the input.
pub open spec fn height_at(s: &ImageSurface, x: int, y: int) -> int {
    s.pixel(x, y).a as int
}

/// The region is at least two pixels wide and two pixels high.
pub open spec fn large_enough(bounds: IRect) -> bool {
    bounds.x1 >= bounds.x0 + 2 && bounds.y1 >= bounds.y0 + 2
}

/// The surface normal at pixel `(x, y)` of `bounds`, from the kernel that applies there.
pub open spec fn spec_normal(s: &ImageSurface, bounds: IRect, x: int, y: int) -> Normal {
    match spec_kernel_kind(bounds, x, y) {
        KernelKind::TopLeft => Normal {
            factor_x_num: 2,
            factor_x_den: 3,
            factor_y_num: 2,
            factor_y_den: 3,
            nx: (2 * height_at(s, x + 1, y) + height_at(s, x + 1, y + 1) - 2 * height_at(s, x, y) - height_at(s, x, y + 1)) as i32,
            ny: (2 * height_at(s, x, y + 1) + height_at(s, x + 1, y + 1) - 2 * height_at(s, x, y) - height_at(s, x + 1, y)) as i32,
        },
        KernelKind::Top => Normal {
            factor_x_num: 1,
            factor_x_den: 3,
            factor_y_num: 1,
            factor_y_den: 2,
            nx: (2 * height_at(s, x + 1, y) + height_at(s, x + 1, y + 1) - 2 * height_at(s, x - 1, y) - height_at(s, x - 1, y + 1)) as i32,
            ny: (height_at(s, x - 1, y + 1) + 2 * height_at(s, x, y + 1) + height_at(s, x + 1, y + 1) - height_at(s, x - 1, y) - 2 * height_at(s, x, y) - height_at(s, x + 1, y)) as i32,
        },
        KernelKind::TopRight => Normal {
            factor_x_num: 2,
            factor_x_den: 3,
            factor_y_num: 2,
            factor_y_den: 3,
            nx: (2 * height_at(s, x, y) + height_at(s, x, y + 1) - 2 * height_at(s, x - 1, y) - height_at(s, x - 1, y + 1)) as i32,
            ny: (height_at(s, x - 1, y + 1) + 2 * height_at(s, x, y + 1) - height_at(s, x - 1, y) - 2 * height_at(s, x, y)) as i32,
        },
        KernelKind::Left => Normal {
            factor_x_num: 1,
            factor_x_den: 2,
            factor_y_num: 1,
            factor_y_den: 3,
            nx: (height_at(s, x + 1, y - 1) + 2 * height_at(s, x + 1, y) + height_at(s, x + 1, y + 1) - height_at(s, x, y - 1) - 2 * height_at(s, x, y) - height_at(s, x, y + 1)) as i32,
            ny: (2 * height_at(s, x, y + 1) + height_at(s, x + 1, y + 1) - 2 * height_at(s, x, y - 1) - height_at(s, x + 1, y - 1)) as i32,
        },
        KernelKind::Interior => Normal {
            factor_x_num: 1,
            factor_x_den: 4,
            factor_y_num: 1,
            factor_y_den: 4,
            nx: (height_at(s, x + 1, y - 1) + 2 * height_at(s, x + 1, y) + height_at(s, x + 1, y + 1) - height_at(s, x - 1, y - 1) - 2 * height_at(s, x - 1, y) - height_at(s, x - 1, y + 1)) as i32,
            ny: (height_at(s, x - 1, y + 1) + 2 * height_at(s, x, y + 1) + height_at(s, x + 1, y + 1) - height_at(s, x - 1, y - 1) - 2 * height_at(s, x, y - 1) - height_at(s, x + 1, y - 1)) as i32,
        },
        KernelKind::Right => Normal {
            factor_x_num: 1,
            factor_x_den: 2,
            factor_y_num: 1,
            factor_y_den: 3,
            nx: (height_at(s, x, y - 1) + 2 * height_at(s, x, y) + height_at(s, x, y + 1) - height_at(s, x - 1, y - 1) - 2 * height_at(s, x - 1, y) - height_at(s, x - 1, y + 1)) as i32,
            ny: (height_at(s, x - 1, y + 1) + 2 * height_at(s, x, y + 1) - height_at(s, x - 1, y - 1) - 2 * height_at(s, x, y - 1)) as i32,
        },
        KernelKind::BottomLeft => Normal {
            factor_x_num: 2,
            factor_x_den: 3,
            factor_y_num: 2,
            factor_y_den: 3,
            nx: (height_at(s, x + 1, y - 1) + 2 * height_at(s, x + 1, y) - height_at(s, x, y - 1) - 2 * height_at(s, x, y)) as i32,
            ny: (2 * height_at(s, x, y) + height_at(s, x + 1, y) - 2 * height_at(s, x, y - 1) - height_at(s, x + 1, y - 1)) as i32,
        },
        KernelKind::Bottom => Normal {
            factor_x_num: 1,
            factor_x_den: 3,
            factor_y_num: 1,
            factor_y_den: 2,
            nx: (height_at(s, x + 1, y - 1) + 2 * height_at(s, x + 1, y) - height_at(s, x - 1, y - 1) - 2 * height_at(s, x - 1, y)) as i32,
            ny: (height_at(s, x - 1, y) + 2 * height_at(s, x, y) + height_at(s, x + 1, y) - height_at(s, x - 1, y - 1) - 2 * height_at(s, x, y - 1) - height_at(s, x + 1, y - 1)) as i32,
        },
        KernelKind::BottomRight => Normal {
            factor_x_num: 2,
            factor_x_den: 3,
            factor_y_num: 2,
            factor_y_den: 3,
            nx: (height_at(s, x, y - 1) + 2 * height_at(s, x, y) - height_at(s, x - 1, y - 1) - 2 * height_at(s, x - 1, y)) as i32,
            ny: (height_at(s, x - 1, y) + 2 * height_at(s, x, y) - height_at(s, x - 1, y - 1) - 2 * height_at(s, x, y - 1)) as i32,
        },
    }
}

fn alpha_at(s: &ImageSurface, x: i32, y: i32) -> (a: i32)
    requires
        s.wf(),
        s.in_bounds(x as int, y as int),
    ensures
        a == height_at(s, x as int, y as int),
        0 <= a <= 255,
{
    s.get_pixel(x as u32, y as u32).a as i32
}

/// The surface normal at pixel `(x, y)` of `bounds`.
pub fn normal_at(s: &ImageSurface, bounds: IRect, x: i32, y: i32) -> (n: Normal)
    requires
        s.wf(),
        bounds.within(s.spec_width(), s.spec_height()),
        large_enough(bounds),
        bounds.contains(x as int, y as int),
    ensures
        n == spec_normal(s, bounds, x as int, y as int),
{
    match kernel_kind(bounds, x, y) {
        KernelKind::TopLeft => Normal {
            factor_x_num: 2,
            factor_x_den: 3,
            factor_y_num: 2,
            factor_y_den: 3,
            nx: 2 * alpha_at(s, x + 1, y) + alpha_at(s, x + 1, y + 1) - 2 * alpha_at(s, x, y) - alpha_at(s, x, y + 1),
            ny: 2 * alpha_at(s, x, y + 1) + alpha_at(s, x + 1, y + 1) - 2 * alpha_at(s, x, y) - alpha_at(s, x + 1, y),
        },
        KernelKind::Top => Normal {
            factor_x_num: 1,
            factor_x_den: 3,
            factor_y_num: 1,
            factor_y_den: 2,
            nx: 2 * alpha_at(s, x + 1, y) + alpha_at(s, x + 1, y + 1) - 2 * alpha_at(s, x - 1, y) - alpha_at(s, x - 1, y + 1),
            ny: alpha_at(s, x - 1, y + 1) + 2 * alpha_at(s, x, y + 1) + alpha_at(s, x + 1, y + 1) - alpha_at(s, x - 1, y) - 2 * alpha_at(s, x, y) - alpha_at(s, x + 1, y),
        },
        KernelKind::TopRight => Normal {
            factor_x_num: 2,
            factor_x_den: 3,
            factor_y_num: 2,
            factor_y_den: 3,
            nx: 2 * alpha_at(s, x, y) + alpha_at(s, x, y + 1) - 2 * alpha_at(s, x - 1, y) - alpha_at(s, x - 1, y + 1),
            ny: alpha_at(s, x - 1, y + 1) + 2 * alpha_at(s, x, y + 1) - alpha_at(s, x - 1, y) - 2 * alpha_at(s, x, y),
        },
        KernelKind::Left => Normal {
            factor_x_num: 1,
            factor_x_den: 2,
            factor_y_num: 1,
            factor_y_den: 3,
            nx: alpha_at(s, x + 1, y - 1) + 2 * alpha_at(s, x + 1, y) + alpha_at(s, x + 1, y + 1) - alpha_at(s, x, y - 1) - 2 * alpha_at(s, x, y) - alpha_at(s, x, y + 1),
            ny: 2 * alpha_at(s, x, y + 1) + alpha_at(s, x + 1, y + 1) - 2 * alpha_at(s, x, y - 1) - alpha_at(s, x + 1, y - 1),
        },
        KernelKind::Interior => Normal {
            factor_x_num: 1,
            factor_x_den: 4,
            factor_y_num: 1,
            factor_y_den: 4,
            nx: alpha_at(s, x + 1, y - 1) + 2 * alpha_at(s, x + 1, y) + alpha_at(s, x + 1, y + 1) - alpha_at(s, x - 1, y - 1) - 2 * alpha_at(s, x - 1, y) - alpha_at(s, x - 1, y + 1),
            ny: alpha_at(s, x - 1, y + 1) + 2 * alpha_at(s, x, y + 1) + alpha_at(s, x + 1, y + 1) - alpha_at(s, x - 1, y - 1) - 2 * alpha_at(s, x, y - 1) - alpha_at(s, x + 1, y - 1),
        },
        KernelKind::Right => Normal {
            factor_x_num: 1,
            factor_x_den: 2,
            factor_y_num: 1,
            factor_y_den: 3,
            nx: alpha_at(s, x, y - 1) + 2 * alpha_at(s, x, y) + alpha_at(s, x, y + 1) - alpha_at(s, x - 1, y - 1) - 2 * alpha_at(s, x - 1, y) - alpha_at(s, x - 1, y + 1),
            ny: alpha_at(s, x - 1, y + 1) + 2 * alpha_at(s, x, y + 1) - alpha_at(s, x - 1, y - 1) - 2 * alpha_at(s, x, y - 1),
        },
        KernelKind::BottomLeft => Normal {
            factor_x_num: 2,
            factor_x_den: 3,
            factor_y_num: 2,
            factor_y_den: 3,
            nx: alpha_at(s, x + 1, y - 1) + 2 * alpha_at(s, x + 1, y) - alpha_at(s, x, y - 1) - 2 * alpha_at(s, x, y),
            ny: 2 * alpha_at(s, x, y) + alpha_at(s, x + 1, y) - 2 * alpha_at(s, x, y - 1) - alpha_at(s, x + 1, y - 1),
        },
        KernelKind::Bottom => Normal {
            factor_x_num: 1,
            factor_x_den: 3,
            factor_y_num: 1,
            factor_y_den: 2,
            nx: alpha_at(s, x + 1, y - 1) + 2 * alpha_at(s, x + 1, y) - alpha_at(s, x - 1, y - 1) - 2 * alpha_at(s, x - 1, y),
            ny: alpha_at(s, x - 1, y) + 2 * alpha_at(s, x, y) + alpha_at(s, x + 1, y) - alpha_at(s, x - 1, y - 1) - 2 * alpha_at(s, x, y - 1) - alpha_at(s, x + 1, y - 1),
        },
        KernelKind::BottomRight => Normal {
            factor_x_num: 2,
            factor_x_den: 3,
            factor_y_num: 2,
            factor_y_den: 3,
            nx: alpha_at(s, x, y - 1) + 2 * alpha_at(s, x, y) - alpha_at(s, x - 1, y - 1) - 2 * alpha_at(s, x - 1, y),
            ny: alpha_at(s, x - 1, y) + 2 * alpha_at(s, x, y) - alpha_at(s, x - 1, y - 1) - 2 * alpha_at(s, x, y - 1),
        },
    }
}

/// Every pixel of `bounds` has the same alpha.
pub open spec fn flat_height(s: &ImageSurface, bounds: IRect) -> bool {
    forall|x1: int, y1: int, x2: int, y2: int|
        #![trigger height_at(s, x1, y1), height_at(s, x2, y2)]
        bounds.contains(x1, y1) && bounds.contains(x2, y2) ==> height_at(s, x1, y1) == height_at(
            s,
            x2,
            y2,
        )
}

/// On a flat input every normal points straight up: the gradient is zero at every pixel.
pub proof fn lemma_flat_surface_normals(s: &ImageSurface, bounds: IRect, x: int, y: int)
    requires
        flat_height(s, bounds),
        large_enough(bounds),
        bounds.contains(x, y),
    ensures
        spec_normal(s, bounds, x, y).nx == 0,
        spec_normal(s, bounds, x, y).ny == 0,
{
    let h = height_at(s, x, y);
    assert forall|dx: int, dy: int|
        -1 <= dx <= 1 && -1 <= dy <= 1 && bounds.contains(x + dx, y + dy) implies #[trigger] height_at(
        s,
        x + dx,
        y + dy,
    ) == h by {}
    assert(bounds.contains(x, y));
    if x > bounds.x0 {
        assert(bounds.contains(x - 1, y));
    }
    if x < bounds.x1 - 1 {
        assert(bounds.contains(x + 1, y));
    }
    if y > bounds.y0 {
        assert(bounds.contains(x, y - 1));
    }
    if y < bounds.y1 - 1 {
        assert(bounds.contains(x, y + 1));
    }
    assert(height_at(s, x, y) == h);
    if x > bounds.x0 && y > bounds.y0 {
        assert(height_at(s, x - 1, y - 1) == h);
    }
    if x > bounds.x0 && y < bounds.y1 - 1 {
        assert(height_at(s, x - 1, y + 1) == h);
    }
    if x < bounds.x1 - 1 && y > bounds.y0 {
        assert(height_at(s, x + 1, y - 1) == h);
    }
    if x < bounds.x1 - 1 && y < bounds.y1 - 1 {
        assert(height_at(s, x + 1, y + 1) == h);
    }
    if x > bounds.x0 {
        assert(height_at(s, x - 1, y) == h);
    }
    if x < bounds.x1 - 1 {
        assert(height_at(s, x + 1, y) == h);
    }
    if y > bounds.y0 {
        assert(height_at(s, x, y - 1) == h);
    }
    if y < bounds.y1 - 1 {
        assert(height_at(s, x, y + 1) == h);
    }
}

/// In a region of two by two pixels every pixel is a corner, so only the corner kernels are
/// used.
pub proof fn lemma_two_by_two_uses_corners(bounds: IRect, x: int, y: int)
    requires
        bounds.x1 == bounds.x0 + 2,
        bounds.y1 == bounds.y0 + 2,
        bounds.contains(x, y),
    ensures
        is_corner(spec_kernel_kind(bounds, x, y)),
{
}

/// The normals of every pixel of `bounds`, row by row; `None` when the region is narrower
/// than two pixels in some direction.
pub fn normals_in(s: &ImageSurface, bounds: IRect) -> (r: Option<Vec<Vec<Normal>>>)
    requires
        s.wf(),
        bounds.within(s.spec_width(), s.spec_height()),
    ensures
        r.is_some() <==> large_enough(bounds),
        r matches Some(rows) ==> {
            &&& rows@.len() == bounds.y1 - bounds.y0
            &&& forall|j: int|
                0 <= j < rows@.len() ==> (#[trigger] rows@[j])@.len() == bounds.x1 - bounds.x0
            &&& forall|i: int, j: int|
                0 <= j < rows@.len() && 0 <= i < bounds.x1 - bounds.x0 ==> (#[trigger] rows@[j]@[i])
                    == spec_normal(s, bounds, bounds.x0 + i, bounds.y0 + j)
        },
{
    if bounds.x1 < bounds.x0 + 2 || bounds.y1 < bounds.y0 + 2 {
        return None;
    }
    let mut rows: Vec<Vec<Normal>> = Vec::new();
    let mut y = bounds.y0;
    while y < bounds.y1
        invariant
            s.wf(),
            bounds.within(s.spec_width(), s.spec_height()),
            large_enough(bounds),
            bounds.y0 <= y <= bounds.y1,
            rows@.len() == y - bounds.y0,
            forall|j: int|
                0 <= j < rows@.len() ==> (#[trigger] rows@[j])@.len() == bounds.x1 - bounds.x0,
            forall|i: int, j: int|
                0 <= j < rows@.len() && 0 <= i < bounds.x1 - bounds.x0 ==> (#[trigger] rows@[j]@[i])
                    == spec_normal(s, bounds, bounds.x0 + i, bounds.y0 + j),
        decreases bounds.y1 - y,
    {
        let mut row: Vec<Normal> = Vec::new();
        let mut x = bounds.x0;
        while x < bounds.x1
            invariant
                s.wf(),
                bounds.within(s.spec_width(), s.spec_height()),
                large_enough(bounds),
                bounds.y0 <= y < bounds.y1,
                bounds.x0 <= x <= bounds.x1,
                row@.len() == x - bounds.x0,
                forall|i: int|
                    0 <= i < row@.len() ==> (#[trigger] row@[i]) == spec_normal(
                        s,
                        bounds,
                        bounds.x0 + i,
                        y as int,
                    ),
            decreases bounds.x1 - x,
        {
            row.push(normal_at(s, bounds, x, y));
            x = x + 1;
        }
        rows.push(row);
        y = y + 1;
    }
    Some(rows)
}

/// What the light contributes at one pixel: a fixed-point factor (`N.L` for diffuse lighting,
/// `(N.H)^exponent` for specular lighting) and the colour of the light there.
#[derive(Debug, Clone, Copy, PartialEq, Eq, Structural)]
pub struct Shade {
    pub light: i64,
    pub red: u8,
    pub green: u8,
    pub blue: u8,
}

impl Shade {
    pub open spec fn wf(self) -> bool {
        -FIXED_LIMIT <= self.light <= FIXED_LIMIT
    }
}

/// One lit colour channel: `constant * light * c`, rounded and clamped to `[0, 255]`, with
/// `constant` and `light` in fixed point.
pub open spec fn lit_channel(constant: int, light: int, c: int) -> int {
    clamp(round_div(constant * light * c, FIXED_ONE * FIXED_ONE), 0, 255)
}

/// The diffuse output pixel: fully opaque.
pub open spec fn diffuse_pixel(constant: int, shade: Shade) -> Pixel {
    Pixel {
        r: lit_channel(constant, shade.light as int, shade.red as int) as u8,
        g: lit_channel(constant, shade.light as int, shade.green as int) as u8,
        b: lit_channel(constant, shade.light as int, shade.blue as int) as u8,
        a: 255,
    }
}

pub open spec fn max3(a: u8, b: u8, c: u8) -> u8 {
    if a >= b && a >= c {
        a
    } else if b >= c {
        b
    } else {
        c
    }
}

/// The specular output pixel: its alpha is the largest of its colour channels.
pub open spec fn specular_pixel(constant: int, shade: Shade) -> Pixel {
    let r = lit_channel(constant, shade.light as int, shade.red as int) as u8;
    let g = lit_channel(constant, shade.light as int, shade.green as int) as u8;
    let b = lit_channel(constant, shade.light as int, shade.blue as int) as u8;
    Pixel { r, g, b, a: max3(r, g, b) }
}

fn compute_channel(constant: i64, light: i64, c: u8) -> (r: u8)
    requires
        0 <= constant <= FIXED_LIMIT,
        -FIXED_LIMIT <= light <= FIXED_LIMIT,
    ensures
        r == lit_channel(constant as int, light as int, c as int),
{
    assert(-0x1000_0000_0000_0000_0000_0000 <= constant * light <= 0x1000_0000_0000_0000_0000_0000)
        by (nonlinear_arith)
        requires
            0 <= constant <= 0x4000_0000_0000,
            -0x4000_0000_0000 <= light <= 0x4000_0000_0000,
    ;
    let p: i128 = constant as i128 * light as i128;
    assert(-0x1000_0000_0000_0000_0000_0000_00 <= p * c <= 0x1000_0000_0000_0000_0000_0000_00)
        by (nonlinear_arith)
        requires
            -0x1000_0000_0000_0000_0000_0000 <= p <= 0x1000_0000_0000_0000_0000_0000,
            0 <= c <= 255,
    ;
    let n: i128 = p * c as i128;
    let v = round_div_i128(n, 0x1_0000_0000);
    if v < 0 {
        0
    } else if v > 255 {
        255
    } else {
        v as u8
    }
}

fn diffuse_pixel_exec(constant: i64, shade: Shade) -> (p: Pixel)
    requires
        0 <= constant <= FIXED_LIMIT,
        shade.wf(),
    ensures
        p == diffuse_pixel(constant as int, shade),
{
    Pixel {
        r: compute_channel(constant, shade.light, shade.red),
        g: compute_channel(constant, shade.light, shade.green),
        b: compute_channel(constant, shade.light, shade.blue),
        a: 255,
    }
}

fn specular_pixel_exec(constant: i64, shade: Shade) -> (p: Pixel)
    requires
        0 <= constant <= FIXED_LIMIT,
        shade.wf(),
    ensures
        p == specular_pixel(constant as int, shade),
{
    let r = compute_channel(constant, shade.light, shade.red);
    let g = compute_channel(constant, shade.light, shade.green);
    let b = compute_channel(constant, shade.light, shade.blue);
    let a = if r >= g && r >= b {
        r
    } else if g >= b {
        g
    } else {
        b
    };
    Pixel { r, g, b, a }
}

/// With the light straight along the normal (`N.L = 1`), each diffuse channel is the diffuse
/// constant times the light's channel, rounded and clamped to `[0, 255]`.
pub proof fn lemma_flat_diffuse(constant: int, shade: Shade)
    requires
        shade.light == FIXED_ONE,
    ensures
        diffuse_pixel(constant, shade).r == clamp(
            round_div(constant * shade.red, FIXED_ONE as int),
            0,
            255,
        ),
        diffuse_pixel(constant, shade).g == clamp(
            round_div(constant * shade.green, FIXED_ONE as int),
            0,
            255,
        ),
        diffuse_pixel(constant, shade).b == clamp(
            round_div(constant * shade.blue, FIXED_ONE as int),
            0,
            255,
        ),
        diffuse_pixel(constant, shade).a == 255,
{
    let f = FIXED_ONE as int;
    assert forall|c: int| #[trigger] lit_channel(constant, f, c) == clamp(round_div(constant * c, f), 0, 255) by {
        assert(2 * (constant * f * c) + f * f == (2 * (constant * c) + f) * f) by (nonlinear_arith);
        assert(2 * (f * f) == (2 * f) * f) by (nonlinear_arith);
        lemma_cancel_factor(2 * (constant * c) + f, 2 * f, f);
    }
}

proof fn lemma_cancel_factor(x: int, d: int, f: int)
    requires
        d > 0,
        f > 0,
    ensures
        (x * f) / (d * f) == x / d,
{
    let q = x / d;
    let r = x % d;
    vstd::arithmetic::div_mod::lemma_fundamental_div_mod(x, d);
    assert(x * f == q * (d * f) + r * f && 0 <= r * f < d * f) by (nonlinear_arith)
        requires
            x == d * q + r,
            0 <= r < d,
            f > 0,
    ;
    vstd::arithmetic::div_mod::lemma_fundamental_div_mod_converse(x * f, d * f, q, r * f);
}

/// The parameters that set diffuse and specular lighting apart.
#[derive(Debug, Clone, Copy, PartialEq, Eq, Structural)]
pub enum LightingData {
    Diffuse { diffuse_constant: i64 },
    Specular { specular_constant: i64, specular_exponent: i64 },
}

/// The `feDiffuseLighting` and `feSpecularLighting` filter primitives. Constants are in fixed
/// point.
pub struct Lighting {
    pub base: PrimitiveWithInput,
    pub surface_scale: i64,
    pub kernel_unit_length: Option<(i64, i64)>,
    pub data: LightingData,
}

/// What lighting computes before the light is applied: the resolved input, the region lit,
/// and the surface normal at each pixel of the region, row by row.
pub struct LightingInput {
    pub input: FilterOutput,
    pub bounds: IRect,
    pub normals: Vec<Vec<Normal>>,
}

/// The largest specular exponent.
pub const MAX_SPECULAR_EXPONENT: i64 = 128 * FIXED_ONE;

impl Lighting {
    pub open spec fn spec_surface_scale(&self) -> int {
        self.surface_scale as int
    }

    pub open spec fn spec_kernel_unit_length(&self) -> Option<(i64, i64)> {
        self.kernel_unit_length
    }

    pub open spec fn spec_data(&self) -> LightingData {
        self.data
    }

    pub open spec fn wf(&self) -> bool {
        &&& self.base.wf()
        &&& in_fixed_range(self.spec_surface_scale())
        &&& (self.spec_kernel_unit_length() matches Some((x, y)) ==> 0 < x <= FIXED_LIMIT && 0 < y
            <= FIXED_LIMIT)
        &&& match self.spec_data() {
            LightingData::Diffuse { diffuse_constant } => 0 <= diffuse_constant <= FIXED_LIMIT,
            LightingData::Specular { specular_constant, specular_exponent } => 0
                <= specular_constant <= FIXED_LIMIT && FIXED_ONE <= specular_exponent
                <= MAX_SPECULAR_EXPONENT,
        }
    }

    /// A diffuse lighting primitive with surface scale and diffuse constant 1.
    pub fn new_diffuse() -> (r: Lighting)
        ensures
            r.wf(),
            r.spec_surface_scale() == FIXED_ONE,
            r.spec_kernel_unit_length().is_none(),
            r.spec_data() == (LightingData::Diffuse { diffuse_constant: FIXED_ONE }),
            r.base.result.is_none() && r.base.input.is_none(),
    {
        Lighting {
            base: PrimitiveWithInput::new(),
            surface_scale: FIXED_ONE,
            kernel_unit_length: None,
            data: LightingData::Diffuse { diffuse_constant: FIXED_ONE },
        }
    }

    /// A specular lighting primitive with surface scale, specular constant and specular
    /// exponent 1.
    pub fn new_specular() -> (r: Lighting)
        ensures
            r.wf(),
            r.spec_surface_scale() == FIXED_ONE,
            r.spec_kernel_unit_length().is_none(),
            r.spec_data() == (LightingData::Specular {
                specular_constant: FIXED_ONE,
                specular_exponent: FIXED_ONE,
            }),
            r.base.result.is_none() && r.base.input.is_none(),
    {
        Lighting {
            base: PrimitiveWithInput::new(),
            surface_scale: FIXED_ONE,
            kernel_unit_length: None,
            data: LightingData::Specular {
                specular_constant: FIXED_ONE,
                specular_exponent: FIXED_ONE,
            },
        }
    }

    pub fn surface_scale(&self) -> (r: i64)
        ensures
            r == self.spec_surface_scale(),
    {
        self.surface_scale
    }

    pub fn kernel_unit_length(&self) -> (r: Option<(i64, i64)>)
        ensures
            r == self.spec_kernel_unit_length(),
    {
        self.kernel_unit_length
    }

    pub fn data(&self) -> (r: LightingData)
        ensures
            r == self.spec_data(),
    {
        self.data
    }

    pub fn set_surface_scale(&mut self, v: i64)
        requires
            old(self).wf(),
            in_fixed_range(v as int),
        ensures
            final(self).wf(),
            final(self).spec_surface_scale() == v,
            final(self).spec_kernel_unit_length() == old(self).spec_kernel_unit_length(),
            final(self).spec_data() == old(self).spec_data(),
            final(self).base == old(self).base,
    {
        self.surface_scale = v;
    }

    /// Sets the kernel unit length; both parts must be positive.
    pub fn set_kernel_unit_length(&mut self, x: i64, y: i64) -> (r: Result<(), FilterError>)
        requires
            old(self).wf(),
            in_fixed_range(x as int),
            in_fixed_range(y as int),
        ensures
            final(self).wf(),
            (x > 0 && y > 0) <==> r.is_ok(),
            r.is_err() ==> r == Err::<(), FilterError>(FilterError::InvalidConfiguration),
            final(self).spec_kernel_unit_length() == if r.is_ok() {
                Some((x, y))
            } else {
                old(self).spec_kernel_unit_length()
            },
            final(self).spec_surface_scale() == old(self).spec_surface_scale(),
            final(self).spec_data() == old(self).spec_data(),
            final(self).base == old(self).base,
    {
        if x > 0 && y > 0 {
            self.kernel_unit_length = Some((x, y));
            Ok(())
        } else {
            Err(FilterError::InvalidConfiguration)
        }
    }

    /// Sets the diffuse constant, which must not be negative; a specular primitive has none
    /// and stays as it is.
    pub fn set_diffuse_constant(&mut self, v: i64) -> (r: Result<(), FilterError>)
        requires
            old(self).wf(),
            in_fixed_range(v as int),
        ensures
            final(self).wf(),
            r.is_err() <==> (v < 0 && old(self).spec_data() is Diffuse),
            r.is_err() ==> r == Err::<(), FilterError>(FilterError::InvalidConfiguration),
            final(self).spec_data() == match old(self).spec_data() {
                LightingData::Diffuse { .. } => if v >= 0 {
                    LightingData::Diffuse { diffuse_constant: v }
                } else {
                    old(self).spec_data()
                },
                LightingData::Specular { .. } => old(self).spec_data(),
            },
            final(self).spec_surface_scale() == old(self).spec_surface_scale(),
            final(self).spec_kernel_unit_length() == old(self).spec_kernel_unit_length(),
            final(self).base == old(self).base,
    {
        match self.data {
            LightingData::Diffuse { .. } => {
                if v >= 0 {
                    self.data = LightingData::Diffuse { diffuse_constant: v };
                    Ok(())
                } else {
                    Err(FilterError::InvalidConfiguration)
                }
            },
            LightingData::Specular { .. } => Ok(()),
        }
    }

    /// Sets the specular constant, which must not be negative; a diffuse primitive has none and
    /// stays as it is.
    pub fn set_specular_constant(&mut self, v: i64) -> (r: Result<(), FilterError>)
        requires
            old(self).wf(),
            in_fixed_range(v as int),
        ensures
            final(self).wf(),
            r.is_err() <==> (v < 0 && old(self).spec_data() is Specular),
            r.is_err() ==> r == Err::<(), FilterError>(FilterError::InvalidConfiguration),
            final(self).spec_data() == match old(self).spec_data() {
                LightingData::Specular { specular_exponent, .. } => if v >= 0 {
                    LightingData::Specular { specular_constant: v, specular_exponent }
                } else {
                    old(self).spec_data()
                },
                LightingData::Diffuse { .. } => old(self).spec_data(),
            },
            final(self).spec_surface_scale() == old(self).spec_surface_scale(),
            final(self).spec_kernel_unit_length() == old(self).spec_kernel_unit_length(),
            final(self).base == old(self).base,
    {
        match self.data {
            LightingData::Specular { specular_exponent, .. } => {
                if v >= 0 {
                    self.data = LightingData::Specular { specular_constant: v, specular_exponent };
                    Ok(())
                } else {
                    Err(FilterError::InvalidConfiguration)
                }
            },
            LightingData::Diffuse { .. } => Ok(()),
        }
    }

    /// Sets the specular exponent, which must lie in `[1, 128]`; a diffuse primitive has none
    /// and stays as it is.
    pub fn set_specular_exponent(&mut self, v: i64) -> (r: Result<(), FilterError>)
        requires
            old(self).wf(),
        ensures
            final(self).wf(),
            r.is_err() <==> (!(FIXED_ONE <= v <= MAX_SPECULAR_EXPONENT) && old(self).spec_data() is Specular),
            r.is_err() ==> r == Err::<(), FilterError>(FilterError::InvalidConfiguration),
            final(self).spec_data() == match old(self).spec_data() {
                LightingData::Specular { specular_constant, .. } => if FIXED_ONE <= v
                    <= MAX_SPECULAR_EXPONENT {
                    LightingData::Specular { specular_constant, specular_exponent: v }
                } else {
                    old(self).spec_data()
                },
                LightingData::Diffuse { .. } => old(self).spec_data(),
            },
            final(self).spec_surface_scale() == old(self).spec_surface_scale(),
            final(self).spec_kernel_unit_length() == old(self).spec_kernel_unit_length(),
            final(self).base == old(self).base,
    {
        match self.data {
            LightingData::Specular { specular_constant, .. } => {
                if FIXED_ONE <= v && v <= MAX_SPECULAR_EXPONENT {
                    self.data = LightingData::Specular { specular_constant, specular_exponent: v };
                    Ok(())
                } else {
                    Err(FilterError::InvalidConfiguration)
                }
            },
            LightingData::Diffuse { .. } => Ok(()),
        }
    }

    /// The horizontal and vertical slope of the surface at a pixel with normal `n`, in fixed
    /// point: `-surface_scale * factor * n / 255`, rounded down. The unnormalized surface
    /// normal is these two and `1`.
    pub open spec fn spec_slope(&self, n: Normal) -> (int, int) {
        (
            saturate(
                floor_div(
                    -self.spec_surface_scale() * n.factor_x_num * n.nx,
                    n.factor_x_den * 255,
                ),
            ),
            saturate(
                floor_div(
                    -self.spec_surface_scale() * n.factor_y_num * n.ny,
                    n.factor_y_den * 255,
                ),
            ),
        )
    }

    /// The horizontal and vertical slope of the surface at a pixel with normal `n`.
    pub fn slope(&self, n: Normal) -> (r: (i64, i64))
        requires
            self.wf(),
            0 < n.factor_x_den <= 4,
            0 < n.factor_y_den <= 4,
            0 <= n.factor_x_num <= 2,
            0 <= n.factor_y_num <= 2,
            -1020 <= n.nx <= 1020,
            -1020 <= n.ny <= 1020,
        ensures
            r.0 == self.spec_slope(n).0,
            r.1 == self.spec_slope(n).1,
    {
        (
            slope_part(self.surface_scale, n.factor_x_num, n.factor_x_den, n.nx),
            slope_part(self.surface_scale, n.factor_y_num, n.factor_y_den, n.ny),
        )
    }

    /// Resolves the input and checks what lighting needs: exactly one light source, and a
    /// region at least two pixels wide and high; then estimates the surface normals.
    ///
    /// The kernel unit length is not applied: resampling the input to it, and the output back,
    /// needs a raster backend that this library does not have, so the normals are always
    /// estimated from neighbouring pixels of the input at its own resolution.
    pub fn prepare(&self, ctx: &FilterContext, light_source_count: usize) -> (r: Result<
        LightingInput,
        FilterError,
    >)
        requires
            self.wf(),
            ctx.wf(),
        ensures
            self.base.spec_input(ctx).is_none() ==> r == Err::<LightingInput, FilterError>(
                FilterError::InputSurfaceUnavailable,
            ),
            self.base.spec_input(ctx).is_some() && light_source_count != 1 ==> r == Err::<
                LightingInput,
                FilterError,
            >(FilterError::InvalidLightSourceCount),
            self.base.spec_input(ctx).is_some() && light_source_count == 1 && !large_enough(
                self.base.spec_bounds(ctx),
            ) ==> r == Err::<LightingInput, FilterError>(FilterError::InputTooSmall),
            r.is_ok() <==> (self.base.spec_input(ctx).is_some() && light_source_count == 1
                && large_enough(self.base.spec_bounds(ctx))),
            r matches Ok(li) ==> {
                let bounds = self.base.spec_bounds(ctx);
                &&& li.input@ == self.base.spec_input(ctx).unwrap()
                &&& li.input.fits(ctx.source_width(), ctx.source_height())
                &&& li.bounds == bounds
                &&& li.normals@.len() == bounds.y1 - bounds.y0
                &&& forall|j: int|
                    0 <= j < li.normals@.len() ==> (#[trigger] li.normals@[j])@.len() == bounds.x1
                        - bounds.x0
                &&& forall|i: int, j: int|
                    0 <= j < li.normals@.len() && 0 <= i < bounds.x1 - bounds.x0 ==> (
                    #[trigger] li.normals@[j]@[i]) == spec_normal(
                        &li.input.surface,
                        bounds,
                        bounds.x0 + i,
                        bounds.y0 + j,
                    )
            },
    {
        let input = match self.base.get_input(ctx) {
            Some(o) => o,
            None => return Err(FilterError::InputSurfaceUnavailable),
        };
        let bounds = self.base.get_bounds(ctx);
        if light_source_count != 1 {
            return Err(FilterError::InvalidLightSourceCount);
        }
        match normals_in(&input.surface, bounds) {
            Some(normals) => Ok(LightingInput { input, bounds, normals }),
            None => Err(FilterError::InputTooSmall),
        }
    }

    /// The output pixel for a shade.
    pub open spec fn spec_lit_pixel(&self, shade: Shade) -> Pixel {
        match self.spec_data() {
            LightingData::Diffuse { diffuse_constant } => diffuse_pixel(
                diffuse_constant as int,
                shade,
            ),
            LightingData::Specular { specular_constant, .. } => specular_pixel(
                specular_constant as int,
                shade,
            ),
        }
    }

    /// Builds the result from the shade of each pixel of `bounds`, given row by row: each
    /// pixel of the region is lit, every other pixel is transparent.
    pub fn render_output(
        &self,
        width: i32,
        height: i32,
        bounds: IRect,
        shades: &Vec<Vec<Shade>>,
        surface_type: SurfaceType,
    ) -> (r: FilterResult)
        requires
            self.wf(),
            0 <= width <= crate::surface::MAX_DIMENSION,
            0 <= height <= crate::surface::MAX_DIMENSION,
            bounds.within(width as int, height as int),
            shades@.len() == bounds.y1 - bounds.y0,
            forall|j: int|
                0 <= j < shades@.len() ==> (#[trigger] shades@[j])@.len() == bounds.x1 - bounds.x0,
            forall|i: int, j: int|
                0 <= j < shades@.len() && 0 <= i < bounds.x1 - bounds.x0 ==> (
                #[trigger] shades@[j]@[i]).wf(),
        ensures
            name_view(r.name) == name_view(self.base.result),
            r.output.bounds == bounds,
            r.output.fits(width as int, height as int),
            r.output.surface.spec_type() == surface_type,
            forall|x: int, y: int| #[trigger]
                r.output.surface.in_bounds(x, y) ==> r.output.surface.pixel(x, y) == if bounds.contains(x, y) {
                    self.spec_lit_pixel(shades@[y - bounds.y0]@[x - bounds.x0])
                } else {
                    Pixel { r: 0, g: 0, b: 0, a: 0 }
                },
    {
        let mut out = ImageSurface::new_transparent(width, height, surface_type);
        let mut y = bounds.y0;
        while y < bounds.y1
            invariant
                self.wf(),
                bounds.within(width as int, height as int),
                shades@.len() == bounds.y1 - bounds.y0,
                forall|j: int|
                    0 <= j < shades@.len() ==> (#[trigger] shades@[j])@.len() == bounds.x1
                        - bounds.x0,
                forall|i: int, j: int|
                    0 <= j < shades@.len() && 0 <= i < bounds.x1 - bounds.x0 ==> (
                    #[trigger] shades@[j]@[i]).wf(),
                bounds.y0 <= y <= bounds.y1,
                out.wf(),
                out.spec_width() == width,
                out.spec_height() == height,
                out.spec_type() == surface_type,
                forall|px: int, py: int| #[trigger]
                    out.in_bounds(px, py) ==> out.pixel(px, py) == if bounds.contains(px, py) && py
                        < y {
                        self.spec_lit_pixel(shades@[py - bounds.y0]@[px - bounds.x0])
                    } else {
                        Pixel { r: 0, g: 0, b: 0, a: 0 }
                    },
            decreases bounds.y1 - y,
        {
            let row = &shades[(y - bounds.y0) as usize];
            let mut x = bounds.x0;
            while x < bounds.x1
                invariant
                    self.wf(),
                    bounds.within(width as int, height as int),
                    shades@.len() == bounds.y1 - bounds.y0,
                    forall|j: int|
                        0 <= j < shades@.len() ==> (#[trigger] shades@[j])@.len() == bounds.x1
                            - bounds.x0,
                    forall|i: int, j: int|
                        0 <= j < shades@.len() && 0 <= i < bounds.x1 - bounds.x0 ==> (
                        #[trigger] shades@[j]@[i]).wf(),
                    *row == shades@[y - bounds.y0],
                    bounds.y0 <= y < bounds.y1,
                    bounds.x0 <= x <= bounds.x1,
                    out.wf(),
                    out.spec_width() == width,
                    out.spec_height() == height,
                    out.spec_type() == surface_type,
                    forall|px: int, py: int| #[trigger]
                        out.in_bounds(px, py) ==> out.pixel(px, py) == if bounds.contains(px, py)
                            && (py < y || (py == y && px < x)) {
                            self.spec_lit_pixel(shades@[py - bounds.y0]@[px - bounds.x0])
                        } else {
                            Pixel { r: 0, g: 0, b: 0, a: 0 }
                        },
                decreases bounds.x1 - x,
            {
                let shade = row[(x - bounds.x0) as usize];
                assert(shade == shades@[y - bounds.y0]@[x - bounds.x0]);
                let p = match self.data {
                    LightingData::Diffuse { diffuse_constant } => diffuse_pixel_exec(
                        diffuse_constant,
                        shade,
                    ),
                    LightingData::Specular { specular_constant, .. } => specular_pixel_exec(
                        specular_constant,
                        shade,
                    ),
                };
                let ghost before = out;
                out.set_pixel(x as u32, y as u32, p);
                assert forall|px: int, py: int| #[trigger]
                    out.in_bounds(px, py) implies out.pixel(px, py) == if bounds.contains(px, py)
                        && (py < y || (py == y && px < x + 1)) {
                        self.spec_lit_pixel(shades@[py - bounds.y0]@[px - bounds.x0])
                    } else {
                        Pixel { r: 0, g: 0, b: 0, a: 0 }
                    } by {
                    if px != x || py != y {
                        assert(out.pixel(px, py) == before.pixel(px, py));
                        assert(before.in_bounds(px, py));
                    }
                }
                x = x + 1;
            }
            y = y + 1;
        }
        FilterResult {
            name: copy_name(&self.base.result),
            output: FilterOutput { surface: out, bounds },
        }
    }
}

fn slope_part(scale: i64, num: i32, den: i32, n: i32) -> (r: i64)
    requires
        in_fixed_range(scale as int),
        0 < den <= 4,
        0 <= num <= 2,
        -1020 <= n <= 1020,
    ensures
        r == saturate(floor_div(-scale * num * n, den * 255)),
{
    assert(-0x1000_0000_0000_0000 <= -scale * num * n <= 0x1000_0000_0000_0000) by (nonlinear_arith)
        requires
            -0x4000_0000_0000 <= scale <= 0x4000_0000_0000,
            0 <= num <= 2,
            -1020 <= n <= 1020,
    ;
    assert(-0x1000_0000_0000_0000 <= -scale * num <= 0x1000_0000_0000_0000) by (nonlinear_arith)
        requires
            -0x4000_0000_0000 <= scale <= 0x4000_0000_0000,
            0 <= num <= 2,
    ;
    let sn: i128 = -(scale as i128) * num as i128;
    let p: i128 = sn * n as i128;
    saturate_i128(floor_div_i128(p, den as i128 * 255))
}

} // verus!
