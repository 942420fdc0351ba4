use vstd::prelude::*;
use crate::error::FilterError;
use crate::fixed::{floor_div, floor_div_i128, in_fixed_range, saturate, saturate_i128, FIXED_ONE};

verus! {

/// The unit a length was given in, after physical units were converted to inches.
#[derive(Debug, Clone, Copy, PartialEq, Eq, Structural)]
pub enum LengthUnit {
    Default,
    Percent,
    FontEm,
    FontEx,
    Inch,
    RelativeLarger,
    RelativeSmaller,
}

/// Which side of the viewport a percentage refers to.
#[derive(Debug, Clone, Copy, PartialEq, Eq, Structural)]
pub enum LengthDir {
    Horizontal,
    Vertical,
    Both,
}

/// A length with its unit. `length` is in fixed point; a percentage is stored as a fraction
/// (`50%` is `0.5`).
#[derive(Debug, Clone, Copy, PartialEq, Eq, Structural)]
pub struct RsvgLength {
    pub length: i64,
    pub unit: LengthUnit,
    pub dir: LengthDir,
}

/// What resolving a length needs to know of the drawing, all in fixed point: the size of the
/// current viewport, the font size, and the resolution in pixels per inch.
#[derive(Debug, Clone, Copy, PartialEq, Eq, Structural)]
pub struct DrawingParams {
    pub vbox_width: i64,
    pub vbox_height: i64,
    pub font_size: i64,
    pub dpi_x: i64,
    pub dpi_y: i64,
}

impl DrawingParams {
    pub open spec fn wf(self) -> bool {
        &&& in_fixed_range(self.vbox_width as int)
        &&& in_fixed_range(self.vbox_height as int)
        &&& in_fixed_range(self.font_size as int)
        &&& in_fixed_range(self.dpi_x as int)
        &&& in_fixed_range(self.dpi_y as int)
    }
}

/// The fixed-point product of two fixed-point values, rounded down and saturated.
pub open spec fn fixed_mul(a: int, b: int) -> int {
    saturate(floor_div(a * b, FIXED_ONE as int))
}

pub open spec fn is_floor_sqrt(n: int, r: int) -> bool {
    0 <= r && r * r <= n < (r + 1) * (r + 1)
}

/// The integer square root of `n`, rounded down.
pub open spec fn floor_sqrt(n: int) -> int {
    choose|r: int| is_floor_sqrt(n, r)
}

/// The length that a percentage of the viewport refers to when it is neither horizontal nor
/// vertical: `sqrt((x^2 + y^2) / 2)`, rounded down.
pub open spec fn viewport_percentage(x: int, y: int) -> int {
    floor_sqrt((x * x + y * y) / 2)
}

proof fn lemma_floor_sqrt_unique(n: int, r: int)
    requires
        is_floor_sqrt(n, r),
    ensures
        floor_sqrt(n) == r,
{
    let s = floor_sqrt(n);
    assert(is_floor_sqrt(n, s));
    if s < r {
        assert((s + 1) * (s + 1) <= r * r) by (nonlinear_arith)
            requires
                0 <= s < r,
        ;
    } else if r < s {
        assert((r + 1) * (r + 1) <= s * s) by (nonlinear_arith)
            requires
                0 <= r < s,
        ;
    }
}

fn isqrt(n: u128) -> (r: u128)
    requires
        n < 0x4000_0000_0000_0000_0000_0000_0000,
    ensures
        r == floor_sqrt(n as int),
        is_floor_sqrt(n as int, r as int),
{
    let mut lo: u128 = 0;
    let mut hi: u128 = 0x8000_0000_0000_0000;
    assert(hi * hi > n) by (nonlinear_arith)
        requires
            hi == 0x8000_0000_0000_0000,
            n < 0x4000_0000_0000_0000_0000_0000_0000,
    ;
    while hi - lo > 1
        invariant
            lo < hi <= 0x8000_0000_0000_0000,
            lo * lo <= n,
            n < hi * hi,
        decreases hi - lo,
    {
        let mid: u128 = lo + (hi - lo) / 2;
        assert(mid * mid <= 0x4000_0000_0000_0000_0000_0000_0000_0000) by (nonlinear_arith)
            requires
                mid <= 0x8000_0000_0000_0000,
        ;
        if mid * mid <= n {
            lo = mid;
        } else {
            hi = mid;
        }
    }
    proof {
        assert(hi == lo + 1);
        lemma_floor_sqrt_unique(n as int, lo as int);
    }
    lo
}

fn fixed_mul_exec(a: i64, b: i64) -> (r: i64)
    requires
        in_fixed_range(a as int),
        in_fixed_range(b as int),
    ensures
        r == fixed_mul(a as int, b as int),
        in_fixed_range(r as int),
{
    assert(-0x1000_0000_0000_0000_0000_0000 <= a * b <= 0x1000_0000_0000_0000_0000_0000)
        by (nonlinear_arith)
        requires
            -0x4000_0000_0000 <= a <= 0x4000_0000_0000,
            -0x4000_0000_0000 <= b <= 0x4000_0000_0000,
    ;
    saturate_i128(floor_div_i128(a as i128 * b as i128, FIXED_ONE as i128))
}

fn viewport_percentage_exec(x: i64, y: i64) -> (r: i64)
    requires
        in_fixed_range(x as int),
        in_fixed_range(y as int),
    ensures
        r == viewport_percentage(x as int, y as int),
        in_fixed_range(r as int),
{
    assert(0 <= x * x <= 0x1000_0000_0000_0000_0000_0000) by (nonlinear_arith)
        requires
            -0x4000_0000_0000 <= x <= 0x4000_0000_0000,
    ;
    assert(0 <= y * y <= 0x1000_0000_0000_0000_0000_0000) by (nonlinear_arith)
        requires
            -0x4000_0000_0000 <= y <= 0x4000_0000_0000,
    ;
    let xx: u128 = (x as i128 * x as i128) as u128;
    let yy: u128 = (y as i128 * y as i128) as u128;
    let n: u128 = (xx + yy) / 2;
    let r = isqrt(n);
    proof {
        assert(r * r <= n);
        if r > 0x4000_0000_0000 {
            assert(r * r > 0x1000_0000_0000_0000_0000_0000) by (nonlinear_arith)
                requires
                    r > 0x4000_0000_0000,
            ;
        }
    }
    r as i64
}

impl RsvgLength {
    pub open spec fn wf(self) -> bool {
        in_fixed_range(self.length as int)
    }

    pub fn new(l: i64, unit: LengthUnit, dir: LengthDir) -> (r: RsvgLength)
        ensures
            r == (RsvgLength { length: l, unit, dir }),
    {
        RsvgLength { length: l, unit, dir }
    }

    /// Accepts the length when it is not negative.
    pub fn check_nonnegative(self) -> (r: Result<RsvgLength, FilterError>)
        ensures
            self.length >= 0 ==> r == Ok::<RsvgLength, FilterError>(self),
            self.length < 0 ==> r == Err::<RsvgLength, FilterError>(
                FilterError::InvalidConfiguration,
            ),
    {
        if self.length >= 0 {
            Ok(self)
        } else {
            Err(FilterError::InvalidConfiguration)
        }
    }

    /// The length in user units, in fixed point.
    pub open spec fn spec_normalize(self, params: DrawingParams) -> int {
        match self.unit {
            LengthUnit::Default => self.length as int,
            LengthUnit::Percent => match self.dir {
                LengthDir::Horizontal => fixed_mul(self.length as int, params.vbox_width as int),
                LengthDir::Vertical => fixed_mul(self.length as int, params.vbox_height as int),
                LengthDir::Both => fixed_mul(
                    self.length as int,
                    viewport_percentage(params.vbox_width as int, params.vbox_height as int),
                ),
            },
            LengthUnit::FontEm => fixed_mul(self.length as int, params.font_size as int),
            LengthUnit::FontEx => saturate(
                floor_div(self.length * params.font_size, 2 * FIXED_ONE),
            ),
            LengthUnit::Inch => match self.dir {
                LengthDir::Horizontal => fixed_mul(self.length as int, params.dpi_x as int),
                LengthDir::Vertical => fixed_mul(self.length as int, params.dpi_y as int),
                LengthDir::Both => fixed_mul(
                    self.length as int,
                    viewport_percentage(params.dpi_x as int, params.dpi_y as int),
                ),
            },
            LengthUnit::RelativeLarger | LengthUnit::RelativeSmaller => 0,
        }
    }

    pub proof fn lemma_normalize_range(self, params: DrawingParams)
        requires
            self.wf(),
            params.wf(),
        ensures
            in_fixed_range(self.spec_normalize(params)),
    {
    }

    /// The length in user units, in fixed point.
    pub fn normalize(&self, params: &DrawingParams) -> (r: i64)
        requires
            self.wf(),
            params.wf(),
        ensures
            r == self.spec_normalize(*params),
            in_fixed_range(r as int),
    {
        match self.unit {
            LengthUnit::Default => self.length,
            LengthUnit::Percent => match self.dir {
                LengthDir::Horizontal => fixed_mul_exec(self.length, params.vbox_width),
                LengthDir::Vertical => fixed_mul_exec(self.length, params.vbox_height),
                LengthDir::Both => fixed_mul_exec(
                    self.length,
                    viewport_percentage_exec(params.vbox_width, params.vbox_height),
                ),
            },
            LengthUnit::FontEm => fixed_mul_exec(self.length, params.font_size),
            LengthUnit::FontEx => half_fixed_mul(self.length, params.font_size),
            LengthUnit::Inch => match self.dir {
                LengthDir::Horizontal => fixed_mul_exec(self.length, params.dpi_x),
                LengthDir::Vertical => fixed_mul_exec(self.length, params.dpi_y),
                LengthDir::Both => fixed_mul_exec(
                    self.length,
                    viewport_percentage_exec(params.dpi_x, params.dpi_y),
                ),
            },
            LengthUnit::RelativeLarger | LengthUnit::RelativeSmaller => 0,
        }
    }

    /// The length in user units for explicitly given resolution, reference size and font size.
    pub open spec fn spec_hand_normalize(
        self,
        pixels_per_inch: int,
        width_or_height: int,
        font_size: int,
    ) -> int {
        match self.unit {
            LengthUnit::Default => self.length as int,
            LengthUnit::Percent => fixed_mul(self.length as int, width_or_height),
            LengthUnit::FontEm => fixed_mul(self.length as int, font_size),
            LengthUnit::FontEx => saturate(floor_div(self.length * font_size, 2 * FIXED_ONE)),
            LengthUnit::Inch => fixed_mul(self.length as int, pixels_per_inch),
            LengthUnit::RelativeLarger | LengthUnit::RelativeSmaller => 0,
        }
    }

    /// The length in user units for explicitly given resolution, reference size and font size.
    pub fn hand_normalize(&self, pixels_per_inch: i64, width_or_height: i64, font_size: i64) -> (r:
        i64)
        requires
            self.wf(),
            in_fixed_range(pixels_per_inch as int),
            in_fixed_range(width_or_height as int),
            in_fixed_range(font_size as int),
        ensures
            r == self.spec_hand_normalize(
                pixels_per_inch as int,
                width_or_height as int,
                font_size as int,
            ),
            in_fixed_range(r as int),
    {
        match self.unit {
            LengthUnit::Default => self.length,
            LengthUnit::Percent => fixed_mul_exec(self.length, width_or_height),
            LengthUnit::FontEm => fixed_mul_exec(self.length, font_size),
            LengthUnit::FontEx => half_fixed_mul(self.length, font_size),
            LengthUnit::Inch => fixed_mul_exec(self.length, pixels_per_inch),
            LengthUnit::RelativeLarger | LengthUnit::RelativeSmaller => 0,
        }
    }
}

/// Half the fixed-point product, rounded down and saturated.
fn half_fixed_mul(a: i64, b: i64) -> (r: i64)
    requires
        in_fixed_range(a as int),
        in_fixed_range(b as int),
    ensures
        r == saturate(floor_div(a * b, 2 * FIXED_ONE)),
        in_fixed_range(r as int),
{
    assert(-0x1000_0000_0000_0000_0000_0000 <= a * b <= 0x1000_0000_0000_0000_0000_0000)
        by (nonlinear_arith)
        requires
            -0x4000_0000_0000 <= a <= 0x4000_0000_0000,
            -0x4000_0000_0000 <= b <= 0x4000_0000_0000,
    ;
    saturate_i128(floor_div_i128(a as i128 * b as i128, 2 * FIXED_ONE as i128))
}

/// The whole user units of a length, truncated toward zero.
pub open spec fn whole_units(l: RsvgLength) -> int {
    if l.length >= 0 {
        (l.length as int) / (FIXED_ONE as int)
    } else {
        -((-(l.length as int)) / (FIXED_ONE as int))
    }
}

/// The sum of the whole user units of the lengths.
pub open spec fn sum_whole_units(s: Seq<RsvgLength>) -> int
    decreases s.len(),
{
    if s.len() == 0 {
        0
    } else {
        sum_whole_units(s.drop_last()) + whole_units(s.last())
    }
}

/// The dash pattern for a list of lengths: an odd number of lengths is repeated once to make
/// it even. An empty list, or one whose lengths sum to zero whole units, is refused.
pub open spec fn spec_dash_list(s: Seq<RsvgLength>) -> Option<Seq<RsvgLength>> {
    let even = if s.len() % 2 == 0 {
        s
    } else {
        s + s
    };
    if s.len() == 0 || sum_whole_units(even) == 0 {
        None
    } else {
        Some(even)
    }
}

/// The dash pattern for a list of lengths; see `spec_dash_list`.
pub fn dash_list(dashes: Vec<RsvgLength>) -> (r: Result<Vec<RsvgLength>, FilterError>)
    requires
        dashes@.len() <= 0x1000_0000,
    ensures
        match spec_dash_list(dashes@) {
            Some(v) => r matches Ok(d) && d@ == v,
            None => r == Err::<Vec<RsvgLength>, FilterError>(FilterError::InvalidConfiguration),
        },
{
    if dashes.len() == 0 {
        return Err(FilterError::InvalidConfiguration);
    }
    let mut even = dashes;
    if even.len() % 2 != 0 {
        let n = even.len();
        let mut i: usize = 0;
        let ghost orig = even@;
        while i < n
            invariant
                n == orig.len(),
                i <= n,
                even@ == orig + orig.subrange(0, i as int),
            decreases n - i,
        {
            let d = even[i];
            even.push(d);
            proof {
                assert(orig.subrange(0, i + 1) =~= orig.subrange(0, i as int).push(d));
            }
            i = i + 1;
        }
        proof {
            assert(orig.subrange(0, n as int) =~= orig);
        }
    }
    let mut sum: i128 = 0;
    let mut j: usize = 0;
    while j < even.len()
        invariant
            j <= even@.len(),
            even@.len() <= 0x2000_0000,
            sum == sum_whole_units(even@.subrange(0, j as int)),
            -0x8000_0000_0000 * (j as int) <= sum <= 0x8000_0000_0000 * (j as int),
        decreases even@.len() - j,
    {
        let l = even[j];
        let w: i128 = if l.length >= 0 {
            (l.length / FIXED_ONE) as i128
        } else {
            -(((-(l.length as i128)) / FIXED_ONE as i128))
        };
        proof {
            assert(even@.subrange(0, j + 1).drop_last() =~= even@.subrange(0, j as int));
            assert(-0x8000_0000_0000_0000 <= l.length <= 0x7fff_ffff_ffff_ffff);
        }
        assert(-0x8000_0000_0000 <= w <= 0x8000_0000_0000) by (nonlinear_arith)
            requires
                w == whole_units(l),
                -0x8000_0000_0000_0000 <= l.length <= 0x7fff_ffff_ffff_ffff,
        ;
        sum = sum + w;
        j = j + 1;
    }
    proof {
        assert(even@.subrange(0, j as int) =~= even@);
    }
    if sum == 0 {
        Err(FilterError::InvalidConfiguration)
    } else {
        Ok(even)
    }
}

} // verus!
