use vstd::prelude::*;
use crate::context::{FilterContext, FilterOutput, FilterResult, Input, OutputView};
use crate::error::FilterError;
use crate::fixed::{clamp, in_fixed_range, round_div, FIXED_ONE};
use crate::primitive::{copy_name, input_ref, name_view, PrimitiveWithInput};
use crate::rect::IRect;
use crate::srgb::{convert_pixel, linearize_surface, unlinearize_surface, Conversion};
use crate::surface::{view_pixel, ImageSurface, Pixel, SurfaceType};

verus! {

/// The compositing operations.
#[derive(Debug, Clone, Copy, PartialEq, Eq, Structural)]
pub enum Operator {
    Over,
    In,
    Out,
    Atop,
    Xor,
    Arithmetic,
}

/// The operator a keyword names.
pub open spec fn operator_named(s: Seq<char>) -> Option<Operator> {
    if s == "over"@ {
        Some(Operator::Over)
    } else if s == "in"@ {
        Some(Operator::In)
    } else if s == "out"@ {
        Some(Operator::Out)
    } else if s == "atop"@ {
        Some(Operator::Atop)
    } else if s == "xor"@ {
        Some(Operator::Xor)
    } else if s == "arithmetic"@ {
        Some(Operator::Arithmetic)
    } else {
        None
    }
}

/// Whether two strings hold the same characters.
pub(crate) fn str_eq(s: &str, t: &str) -> (r: bool)
    ensures
        r == (s@ == t@),
{
    let n = s.unicode_len();
    if n != t.unicode_len() {
        return false;
    }
    let mut i: usize = 0;
    while i < n
        invariant
            n == s@.len(),
            n == t@.len(),
            i <= n,
            forall|j: int| 0 <= j < i ==> s@[j] == t@[j],
        decreases n - i,
    {
        if s.get_char(i) != t.get_char(i) {
            return false;
        }
        i = i + 1;
    }
    assert(s@ =~= t@);
    true
}

impl Operator {
    /// The operator a keyword names; an unknown keyword is a configuration error.
    pub fn parse(s: &str) -> (r: Result<Operator, FilterError>)
        ensures
            match operator_named(s@) {
                Some(op) => r == Ok::<Operator, FilterError>(op),
                None => r == Err::<Operator, FilterError>(FilterError::InvalidConfiguration),
            },
    {
        if str_eq(s, "over") {
            Ok(Operator::Over)
        } else if str_eq(s, "in") {
            Ok(Operator::In)
        } else if str_eq(s, "out") {
            Ok(Operator::Out)
        } else if str_eq(s, "atop") {
            Ok(Operator::Atop)
        } else if str_eq(s, "xor") {
            Ok(Operator::Xor)
        } else if str_eq(s, "arithmetic") {
            Ok(Operator::Arithmetic)
        } else {
            Err(FilterError::InvalidConfiguration)
        }
    }
}

/// The product of two 8-bit values as a fraction of 255, rounded.
pub open spec fn mul_un8(a: int, b: int) -> int {
    round_div(a * b, 255)
}

/// The sum of two 8-bit values, saturated at 255.
pub open spec fn add_un8(a: int, b: int) -> int {
    if a + b > 255 {
        255
    } else {
        a + b
    }
}

/// One channel of the Porter-Duff operator `op`, with source channel `s` of alpha `sa` painted
/// onto destination channel `d` of alpha `da`.
pub open spec fn porter_duff_channel(op: Operator, s: int, sa: int, d: int, da: int) -> int {
    match op {
        Operator::Over => add_un8(s, mul_un8(d, 255 - sa)),
        Operator::In => mul_un8(s, da),
        Operator::Out => mul_un8(s, 255 - da),
        Operator::Atop => add_un8(mul_un8(s, da), mul_un8(d, 255 - sa)),
        _ => add_un8(mul_un8(s, 255 - da), mul_un8(d, 255 - sa)),
    }
}

/// The source pixel `s` painted onto the destination pixel `d` with the Porter-Duff operator
/// `op`.
pub open spec fn porter_duff_pixel(op: Operator, s: Pixel, d: Pixel) -> Pixel {
    Pixel {
        r: porter_duff_channel(op, s.r as int, s.a as int, d.r as int, d.a as int) as u8,
        g: porter_duff_channel(op, s.g as int, s.a as int, d.g as int, d.a as int) as u8,
        b: porter_duff_channel(op, s.b as int, s.a as int, d.b as int, d.a as int) as u8,
        a: porter_duff_channel(op, s.a as int, s.a as int, d.a as int, d.a as int) as u8,
    }
}

/// The arithmetic combination `k1 * i1 * i2 + k2 * i1 + k3 * i2 + k4` of two 8-bit values
/// taken as fractions of 255, with fixed-point coefficients; the result is in units of
/// `1 / (FIXED_ONE * 255 * 255)`.
pub open spec fn arithmetic_value(k1: int, k2: int, k3: int, k4: int, i1: int, i2: int) -> int {
    k1 * i1 * i2 + 255 * k2 * i1 + 255 * k3 * i2 + 65025 * k4
}

/// `FIXED_ONE * 255 * 255`: the value `1.0` in the units of `arithmetic_value`.
pub open spec fn arithmetic_one() -> int {
    FIXED_ONE * 65025
}

/// The output alpha of the arithmetic combination, clamped to `[0, 1]`, in the units of
/// `arithmetic_value`.
pub open spec fn arithmetic_alpha(k1: int, k2: int, k3: int, k4: int, a1: int, a2: int) -> int {
    clamp(arithmetic_value(k1, k2, k3, k4, a1, a2), 0, arithmetic_one())
}

/// A value in the units of `arithmetic_value`, scaled back to 8 bits and rounded.
pub open spec fn to_un8(v: int) -> int {
    round_div(v, FIXED_ONE * 255)
}

/// One colour channel of the arithmetic combination: clamped to `[0, oa]` and scaled back.
pub open spec fn arithmetic_channel(
    k1: int,
    k2: int,
    k3: int,
    k4: int,
    oa: int,
    i1: int,
    i2: int,
) -> int {
    to_un8(clamp(arithmetic_value(k1, k2, k3, k4, i1, i2), 0, oa))
}

/// The arithmetic combination of two premultiplied pixels: transparent when the output alpha
/// is zero.
pub open spec fn arithmetic_pixel(k1: int, k2: int, k3: int, k4: int, p1: Pixel, p2: Pixel) -> Pixel {
    let oa = arithmetic_alpha(k1, k2, k3, k4, p1.a as int, p2.a as int);
    if oa == 0 {
        Pixel { r: 0, g: 0, b: 0, a: 0 }
    } else {
        Pixel {
            r: arithmetic_channel(k1, k2, k3, k4, oa, p1.r as int, p2.r as int) as u8,
            g: arithmetic_channel(k1, k2, k3, k4, oa, p1.g as int, p2.g as int) as u8,
            b: arithmetic_channel(k1, k2, k3, k4, oa, p1.b as int, p2.b as int) as u8,
            a: to_un8(oa) as u8,
        }
    }
}

/// The `feComposite` filter primitive.
pub struct Composite {
    pub base: PrimitiveWithInput,
    pub in2: Option<Input>,
    pub operator: Operator,
    pub k1: i64,
    pub k2: i64,
    pub k3: i64,
    pub k4: i64,
}

impl Composite {
    /// A composite with the `over` operator, zero coefficients and default inputs.
    pub fn new() -> (r: Composite)
        ensures
            r.wf(),
            r.operator == Operator::Over,
            r.k1 == 0 && r.k2 == 0 && r.k3 == 0 && r.k4 == 0,
            r.in2.is_none(),
    {
        Composite {
            base: PrimitiveWithInput::new(),
            in2: None,
            operator: Operator::Over,
            k1: 0,
            k2: 0,
            k3: 0,
            k4: 0,
        }
    }

    pub open spec fn wf(&self) -> bool {
        &&& self.base.wf()
        &&& in_fixed_range(self.k1 as int)
        &&& in_fixed_range(self.k2 as int)
        &&& in_fixed_range(self.k3 as int)
        &&& in_fixed_range(self.k4 as int)
    }

    /// One pixel of the composite of linear-light pixels `p1` (first input) and `p2` (second
    /// input).
    pub open spec fn spec_pixel(&self, p1: Pixel, p2: Pixel) -> Pixel {
        if self.operator == Operator::Arithmetic {
            arithmetic_pixel(
                self.k1 as int,
                self.k2 as int,
                self.k3 as int,
                self.k4 as int,
                p1,
                p2,
            )
        } else {
            porter_duff_pixel(self.operator, p1, p2)
        }
    }

    /// One output pixel: both inputs linearized, composited, and the result encoded as sRGB.
    pub open spec fn spec_output_pixel(&self, p1: Pixel, p2: Pixel) -> Pixel {
        convert_pixel(
            Conversion::Unlinearize,
            self.spec_pixel(
                convert_pixel(Conversion::Linearize, p1),
                convert_pixel(Conversion::Linearize, p2),
            ),
        )
    }

    /// What the second input resolves to.
    pub open spec fn spec_input2(&self, ctx: &FilterContext) -> Option<OutputView> {
        ctx.spec_input(input_ref(&self.in2))
    }

    /// Renders the primitive: fails when an input cannot be resolved; otherwise the output
    /// covers the primitive subregion, where each pixel is the composite of the input pixels
    /// there, and is transparent elsewhere.
    pub fn render(&self, ctx: &FilterContext) -> (r: Result<FilterResult, FilterError>)
        requires
            self.wf(),
            ctx.wf(),
        ensures
            (self.base.spec_input(ctx).is_some() && self.spec_input2(ctx).is_some()) <==> r.is_ok(),
            r matches Err(e) ==> e == FilterError::InputSurfaceUnavailable,
            r matches Ok(res) ==> {
                let bounds = self.base.spec_bounds(ctx);
                let a = self.base.spec_input(ctx).unwrap().surface;
                let b = self.spec_input2(ctx).unwrap().surface;
                &&& name_view(res.name) == name_view(self.base.result)
                &&& res.output.bounds == bounds
                &&& res.output.fits(ctx.source_width(), ctx.source_height())
                &&& res.output.surface.spec_type() == SurfaceType::SRgb
                &&& forall|x: int, y: int| #[trigger]
                    res.output.surface.in_bounds(x, y) ==> res.output.surface.pixel(x, y) == if bounds.contains(x, y) {
                        self.spec_output_pixel(view_pixel(a, x, y), view_pixel(b, x, y))
                    } else {
                        Pixel { r: 0, g: 0, b: 0, a: 0 }
                    }
            },
    {
        let bounds = self.base.get_bounds(ctx);
        let input = match self.base.get_input(ctx) {
            Some(o) => o,
            None => return Err(FilterError::InputSurfaceUnavailable),
        };
        let input_2 = match ctx.get_input(self.in2.as_ref()) {
            Some(o) => o,
            None => return Err(FilterError::InputSurfaceUnavailable),
        };
        // Blending is only correct in linear light.
        let a = linearize_surface(&input.surface, bounds);
        let b = linearize_surface(&input_2.surface, bounds);
        let composed = self.compose(&a, &b, bounds);
        let output = unlinearize_surface(&composed, bounds);
        proof {
            assert forall|x: int, y: int| #[trigger]
                output.in_bounds(x, y) && bounds.contains(x, y) implies output.pixel(x, y)
                == self.spec_output_pixel(
                view_pixel(input.surface@, x, y),
                view_pixel(input_2.surface@, x, y),
            ) by {
                assert(composed.in_bounds(x, y));
                assert(a.in_bounds(x, y));
                assert(b.in_bounds(x, y));
            }
            assert forall|x: int, y: int| #[trigger]
                output.in_bounds(x, y) && !bounds.contains(x, y) implies output.pixel(x, y) == (Pixel {
                r: 0,
                g: 0,
                b: 0,
                a: 0,
            }) by {}
        }
        Ok(
            FilterResult {
                name: copy_name(&self.base.result),
                output: FilterOutput { surface: output, bounds },
            },
        )
    }

    /// Composites the pixels of `a` and `b` within `bounds`; every other pixel is transparent.
    fn compose(&self, a: &ImageSurface, b: &ImageSurface, bounds: IRect) -> (out: ImageSurface)
        requires
            self.wf(),
            a.wf(),
            b.wf(),
            b.same_size(a),
            bounds.within(a.spec_width(), a.spec_height()),
        ensures
            out.wf(),
            out.same_size(a),
            forall|x: int, y: int| #[trigger]
                out.in_bounds(x, y) ==> out.pixel(x, y) == if bounds.contains(x, y) {
                    self.spec_pixel(a.pixel(x, y), b.pixel(x, y))
                } else {
                    Pixel { r: 0, g: 0, b: 0, a: 0 }
                },
    {
        let mut out = ImageSurface::new_transparent(a.width(), a.height(), a.surface_type());
        let mut y = bounds.y0;
        while y < bounds.y1
            invariant
                self.wf(),
                a.wf(),
                b.wf(),
                b.same_size(a),
                bounds.within(a.spec_width(), a.spec_height()),
                bounds.y0 <= y <= bounds.y1,
                out.wf(),
                out.same_size(a),
                forall|px: int, py: int| #[trigger]
                    out.in_bounds(px, py) ==> out.pixel(px, py) == if bounds.contains(px, py) && py
                        < y {
                        self.spec_pixel(a.pixel(px, py), b.pixel(px, py))
                    } else {
                        Pixel { r: 0, g: 0, b: 0, a: 0 }
                    },
            decreases bounds.y1 - y,
        {
            let mut x = bounds.x0;
            while x < bounds.x1
                invariant
                    self.wf(),
                    a.wf(),
                    b.wf(),
                    b.same_size(a),
                    bounds.within(a.spec_width(), a.spec_height()),
                    bounds.y0 <= y < bounds.y1,
                    bounds.x0 <= x <= bounds.x1,
                    out.wf(),
                    out.same_size(a),
                    forall|px: int, py: int| #[trigger]
                        out.in_bounds(px, py) ==> out.pixel(px, py) == if bounds.contains(px, py)
                            && (py < y || (py == y && px < x)) {
                            self.spec_pixel(a.pixel(px, py), b.pixel(px, py))
                        } else {
                            Pixel { r: 0, g: 0, b: 0, a: 0 }
                        },
                decreases bounds.x1 - x,
            {
                let p1 = a.get_pixel(x as u32, y as u32);
                let p2 = b.get_pixel(x as u32, y as u32);
                let p = if self.operator == Operator::Arithmetic {
                    arithmetic_pixel_exec(self.k1, self.k2, self.k3, self.k4, p1, p2)
                } else {
                    porter_duff_pixel_exec(self.operator, p1, p2)
                };
                let ghost before = out;
                out.set_pixel(x as u32, y as u32, p);
                assert forall|px: int, py: int| #[trigger]
                    out.in_bounds(px, py) implies out.pixel(px, py) == if bounds.contains(px, py)
                        && (py < y || (py == y && px < x + 1)) {
                        self.spec_pixel(a.pixel(px, py), b.pixel(px, py))
                    } else {
                        Pixel { r: 0, g: 0, b: 0, a: 0 }
                    } by {
                    if px != x || py != y {
                        assert(out.pixel(px, py) == before.pixel(px, py));
                        assert(before.in_bounds(px, py));
                    }
                }
                x = x + 1;
            }
            y = y + 1;
        }
        out
    }
}

fn mul_un8_exec(a: u32, b: u32) -> (r: u32)
    requires
        a <= 255,
        b <= 255,
    ensures
        r == mul_un8(a as int, b as int),
        r <= 255,
{
    assert(a * b <= 65025) by (nonlinear_arith)
        requires
            a <= 255,
            b <= 255,
    ;
    (2 * (a * b) + 255) / 510
}

fn add_un8_exec(a: u32, b: u32) -> (r: u32)
    requires
        a <= 255,
        b <= 255,
    ensures
        r == add_un8(a as int, b as int),
        r <= 255,
{
    if a + b > 255 {
        255
    } else {
        a + b
    }
}

fn porter_duff_channel_exec(op: Operator, s: u8, sa: u8, d: u8, da: u8) -> (r: u8)
    ensures
        r == porter_duff_channel(op, s as int, sa as int, d as int, da as int),
{
    let s = s as u32;
    let sa = sa as u32;
    let d = d as u32;
    let da = da as u32;
    let v = match op {
        Operator::Over => add_un8_exec(s, mul_un8_exec(d, 255 - sa)),
        Operator::In => mul_un8_exec(s, da),
        Operator::Out => mul_un8_exec(s, 255 - da),
        Operator::Atop => add_un8_exec(mul_un8_exec(s, da), mul_un8_exec(d, 255 - sa)),
        _ => add_un8_exec(mul_un8_exec(s, 255 - da), mul_un8_exec(d, 255 - sa)),
    };
    v as u8
}

fn porter_duff_pixel_exec(op: Operator, s: Pixel, d: Pixel) -> (r: Pixel)
    ensures
        r == porter_duff_pixel(op, s, d),
{
    Pixel {
        r: porter_duff_channel_exec(op, s.r, s.a, d.r, d.a),
        g: porter_duff_channel_exec(op, s.g, s.a, d.g, d.a),
        b: porter_duff_channel_exec(op, s.b, s.a, d.b, d.a),
        a: porter_duff_channel_exec(op, s.a, s.a, d.a, d.a),
    }
}

fn arithmetic_value_exec(k1: i64, k2: i64, k3: i64, k4: i64, i1: u8, i2: u8) -> (r: i128)
    requires
        in_fixed_range(k1 as int),
        in_fixed_range(k2 as int),
        in_fixed_range(k3 as int),
        in_fixed_range(k4 as int),
    ensures
        r == arithmetic_value(k1 as int, k2 as int, k3 as int, k4 as int, i1 as int, i2 as int),
{
    let i1 = i1 as i128;
    let i2 = i2 as i128;
    assert(0 <= i1 * i2 <= 65025) by (nonlinear_arith)
        requires
            0 <= i1 <= 255,
            0 <= i2 <= 255,
    ;
    let p = i1 * i2;
    assert(-0x4000_0000_0000_0000 <= k1 * p <= 0x4000_0000_0000_0000) by (nonlinear_arith)
        requires
            -0x4000_0000_0000 <= k1 <= 0x4000_0000_0000,
            0 <= p <= 65025,
    ;
    assert(-0x4000_0000_0000_0000 <= k2 * i1 <= 0x4000_0000_0000_0000) by (nonlinear_arith)
        requires
            -0x4000_0000_0000 <= k2 <= 0x4000_0000_0000,
            0 <= i1 <= 255,
    ;
    assert(-0x4000_0000_0000_0000 <= k3 * i2 <= 0x4000_0000_0000_0000) by (nonlinear_arith)
        requires
            -0x4000_0000_0000 <= k3 <= 0x4000_0000_0000,
            0 <= i2 <= 255,
    ;
    let r = k1 as i128 * p + 255 * (k2 as i128 * i1) + 255 * (k3 as i128 * i2) + 65025 * k4 as i128;
    assert(r == k1 * (i1 * i2) + 255 * (k2 * i1) + 255 * (k3 * i2) + 65025 * k4);
    assert(k1 * (i1 * i2) == k1 * i1 * i2) by (nonlinear_arith);
    assert(255 * (k2 * i1) == 255 * k2 * i1) by (nonlinear_arith);
    assert(255 * (k3 * i2) == 255 * k3 * i2) by (nonlinear_arith);
    r
}

fn to_un8_exec(v: i128) -> (r: u8)
    requires
        0 <= v <= arithmetic_one(),
    ensures
        r == to_un8(v as int),
{
    let n = 2 * v + FIXED_ONE as i128 * 255;
    let d = 2 * FIXED_ONE as i128 * 255;
    let r = n / d;
    proof {
        vstd::arithmetic::div_mod::lemma_fundamental_div_mod(n as int, d as int);
        assert(r <= 255) by (nonlinear_arith)
            requires
                n == d * r + n % d,
                0 <= n % d,
                n < 256 * d,
                d > 0,
        ;
    }
    r as u8
}

fn arithmetic_pixel_exec(k1: i64, k2: i64, k3: i64, k4: i64, p1: Pixel, p2: Pixel) -> (r: Pixel)
    requires
        in_fixed_range(k1 as int),
        in_fixed_range(k2 as int),
        in_fixed_range(k3 as int),
        in_fixed_range(k4 as int),
    ensures
        r == arithmetic_pixel(k1 as int, k2 as int, k3 as int, k4 as int, p1, p2),
{
    let one: i128 = FIXED_ONE as i128 * 65025;
    let va = arithmetic_value_exec(k1, k2, k3, k4, p1.a, p2.a);
    let oa = if va < 0 {
        0
    } else if va > one {
        one
    } else {
        va
    };
    if oa == 0 {
        return Pixel { r: 0, g: 0, b: 0, a: 0 };
    }
    let vr = arithmetic_value_exec(k1, k2, k3, k4, p1.r, p2.r);
    let vg = arithmetic_value_exec(k1, k2, k3, k4, p1.g, p2.g);
    let vb = arithmetic_value_exec(k1, k2, k3, k4, p1.b, p2.b);
    Pixel {
        r: to_un8_exec(clamp_i128(vr, oa)),
        g: to_un8_exec(clamp_i128(vg, oa)),
        b: to_un8_exec(clamp_i128(vb, oa)),
        a: to_un8_exec(oa),
    }
}

fn clamp_i128(v: i128, hi: i128) -> (r: i128)
    requires
        0 <= hi,
    ensures
        r == clamp(v as int, 0, hi as int),
{
    if v < 0 {
        0
    } else if v > hi {
        hi
    } else {
        v
    }
}

/// With `k2 = 1` and the other coefficients zero, the arithmetic combination gives back the
/// first pixel; with `k3 = 1` and the others zero, the second.
pub proof fn lemma_arithmetic_identity(p1: Pixel, p2: Pixel)
    requires
        p1.is_premultiplied(),
        p2.is_premultiplied(),
    ensures
        arithmetic_pixel(0, FIXED_ONE as int, 0, 0, p1, p2) == p1,
        arithmetic_pixel(0, 0, FIXED_ONE as int, 0, p1, p2) == p2,
{
    lemma_arithmetic_picks(p1, p2, true);
    lemma_arithmetic_picks(p1, p2, false);
}

proof fn lemma_arithmetic_picks(p1: Pixel, p2: Pixel, first: bool)
    requires
        p1.is_premultiplied(),
        p2.is_premultiplied(),
    ensures
        first ==> arithmetic_pixel(0, FIXED_ONE as int, 0, 0, p1, p2) == p1,
        !first ==> arithmetic_pixel(0, 0, FIXED_ONE as int, 0, p1, p2) == p2,
{
    let f = FIXED_ONE as int;
    let (k2, k3) = if first {
        (f, 0int)
    } else {
        (0int, f)
    };
    let p = if first {
        p1
    } else {
        p2
    };
    assert forall|i1: int, i2: int|
        #![trigger arithmetic_value(0, k2, k3, 0, i1, i2)]
        arithmetic_value(0, k2, k3, 0, i1, i2) == 255 * f * (if first {
            i1
        } else {
            i2
        }) by {
        assert(0 * i1 * i2 == 0) by (nonlinear_arith);
        assert(255 * 0 * i1 == 0) by (nonlinear_arith);
        assert(255 * 0 * i2 == 0) by (nonlinear_arith);
    }
    let oa = arithmetic_alpha(0, k2, k3, 0, p1.a as int, p2.a as int);
    assert(oa == 255 * f * p.a) by {
        assert(arithmetic_value(0, k2, k3, 0, p1.a as int, p2.a as int) == 255 * f * p.a);
    }
    lemma_to_un8_exact(p.a as int);
    if oa != 0 {
        assert(arithmetic_value(0, k2, k3, 0, p1.r as int, p2.r as int) == 255 * f * p.r);
        assert(arithmetic_value(0, k2, k3, 0, p1.g as int, p2.g as int) == 255 * f * p.g);
        assert(arithmetic_value(0, k2, k3, 0, p1.b as int, p2.b as int) == 255 * f * p.b);
        lemma_to_un8_exact(p.r as int);
        lemma_to_un8_exact(p.g as int);
        lemma_to_un8_exact(p.b as int);
    }
}

proof fn lemma_to_un8_exact(c: int)
    requires
        0 <= c <= 255,
    ensures
        to_un8(255 * FIXED_ONE * c) == c,
        0 <= 255 * FIXED_ONE * c <= arithmetic_one(),
{
    let f = FIXED_ONE as int;
    let d = 2 * (f * 255);
    let n = 2 * (255 * f * c) + f * 255;
    assert(n == c * d + f * 255) by (nonlinear_arith)
        requires
            d == 2 * (f * 255),
            n == 2 * (255 * f * c) + f * 255,
    ;
    assert(0 <= 255 * f * c <= f * 65025) by (nonlinear_arith)
        requires
            0 <= c <= 255,
            f == 65536,
    ;
    vstd::arithmetic::div_mod::lemma_fundamental_div_mod_converse(n, d, c, f * 255);
}

/// The arithmetic output alpha is always clamped into `[0, 1]`; for two opaque inputs it is
/// the sum of the coefficients, clamped, so with `k1 + k2 + k3 + k4 >= 1` (for instance
/// `k4 = 2` and the others zero) the output is fully opaque.
pub proof fn lemma_arithmetic_alpha_clamp(k1: int, k2: int, k3: int, k4: int, p1: Pixel, p2: Pixel)
    ensures
        0 <= arithmetic_alpha(k1, k2, k3, k4, p1.a as int, p2.a as int) <= arithmetic_one(),
        (p1.a == 255 && p2.a == 255) ==> arithmetic_alpha(k1, k2, k3, k4, 255, 255) == clamp(
            65025 * (k1 + k2 + k3 + k4),
            0,
            arithmetic_one(),
        ),
        (p1.a == 255 && p2.a == 255 && k1 + k2 + k3 + k4 >= FIXED_ONE) ==> arithmetic_pixel(
            k1,
            k2,
            k3,
            k4,
            p1,
            p2,
        ).a == 255,
{
    assert(arithmetic_value(k1, k2, k3, k4, 255, 255) == 65025 * (k1 + k2 + k3 + k4)) by (nonlinear_arith);
    if p1.a == 255 && p2.a == 255 && k1 + k2 + k3 + k4 >= FIXED_ONE {
        assert(65025 * (k1 + k2 + k3 + k4) >= 65025 * FIXED_ONE) by (nonlinear_arith)
            requires
                k1 + k2 + k3 + k4 >= FIXED_ONE,
        ;
        lemma_to_un8_exact(255);
    }
}

/// Converting any pixel gives a premultiplied pixel.
pub proof fn lemma_convert_premultiplied(conv: Conversion, p: Pixel)
    ensures
        convert_pixel(conv, p).is_premultiplied(),
{
    if p.a != 0 {
        lemma_convert_channel_le(conv, p.r, p.a);
        lemma_convert_channel_le(conv, p.g, p.a);
        lemma_convert_channel_le(conv, p.b, p.a);
    }
}

proof fn lemma_convert_channel_le(conv: Conversion, c: u8, a: u8)
    requires
        a > 0,
    ensures
        crate::srgb::convert_channel(conv, c, a) <= a,
{
    let v = crate::srgb::convert_value(
        conv,
        crate::srgb::unpremultiply(c as int, a as int) as u8,
    ) as int;
    assert((2 * (v * a) + 255) / 510 <= a) by (nonlinear_arith)
        requires
            0 <= v <= 255,
            0 < a <= 255,
    ;
}

/// With `k2 = 1` and the other coefficients zero, the arithmetic composite renders the first
/// input after a round trip through linear light, and with `k3 = 1` the second.
pub proof fn lemma_arithmetic_identity_output(c: Composite, p1: Pixel, p2: Pixel)
    requires
        c.operator == Operator::Arithmetic,
        c.k1 == 0,
        c.k4 == 0,
        (c.k2 == FIXED_ONE && c.k3 == 0) || (c.k2 == 0 && c.k3 == FIXED_ONE),
    ensures
        c.k2 == FIXED_ONE ==> c.spec_output_pixel(p1, p2) == convert_pixel(
            Conversion::Unlinearize,
            convert_pixel(Conversion::Linearize, p1),
        ),
        c.k3 == FIXED_ONE ==> c.spec_output_pixel(p1, p2) == convert_pixel(
            Conversion::Unlinearize,
            convert_pixel(Conversion::Linearize, p2),
        ),
{
    lemma_convert_premultiplied(Conversion::Linearize, p1);
    lemma_convert_premultiplied(Conversion::Linearize, p2);
    lemma_arithmetic_identity(
        convert_pixel(Conversion::Linearize, p1),
        convert_pixel(Conversion::Linearize, p2),
    );
}

} // verus!
