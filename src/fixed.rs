use vstd::prelude::*;

verus! {

/// The value `1.0` in the fixed-point representation: a fixed-point number `v` stands for
/// `v / FIXED_ONE`.
pub const FIXED_ONE: i64 = 65536;

/// Fixed-point values are kept within `[-FIXED_LIMIT, FIXED_LIMIT]`.
pub const FIXED_LIMIT: i64 = 0x4000_0000_0000;

pub open spec fn in_fixed_range(v: int) -> bool {
    -FIXED_LIMIT <= v <= FIXED_LIMIT
}

/// `v` saturated into the fixed-point range.
pub open spec fn saturate(v: int) -> int {
    if v < -FIXED_LIMIT {
        -FIXED_LIMIT as int
    } else if v > FIXED_LIMIT {
        FIXED_LIMIT as int
    } else {
        v
    }
}

/// `v` clamped into `[lo, hi]`.
pub open spec fn clamp(v: int, lo: int, hi: int) -> int {
    if v < lo {
        lo
    } else if v > hi {
        hi
    } else {
        v
    }
}

/// The largest integer not above `n / d`.
pub open spec fn floor_div(n: int, d: int) -> int
    recommends
        d > 0,
{
    n / d
}

/// The smallest integer not below `n / d`.
pub open spec fn ceil_div(n: int, d: int) -> int
    recommends
        d > 0,
{
    -((-n) / d)
}

/// `n / d` rounded to the nearest integer, halves rounded up.
pub open spec fn round_div(n: int, d: int) -> int
    recommends
        d > 0,
{
    (2 * n + d) / (2 * d)
}

/// Floor division of a 128-bit integer by a positive divisor.
pub fn floor_div_i128(n: i128, d: i128) -> (r: i128)
    requires
        d > 0,
        n > i128::MIN,
    ensures
        r == floor_div(n as int, d as int),
        n >= 0 ==> 0 <= r <= n,
        n < 0 ==> n <= r < 0,
{
    if n >= 0 {
        (n as u128 / d as u128) as i128
    } else {
        let m: u128 = (-n) as u128;
        let q: u128 = m / d as u128;
        let rem: u128 = m % d as u128;
        proof {
            lemma_neg_floor_div(m as int, d as int, q as int, rem as int);
        }
        if rem == 0 {
            -(q as i128)
        } else {
            -(q as i128) - 1
        }
    }
}

proof fn lemma_neg_floor_div(m: int, d: int, q: int, rem: int)
    requires
        m > 0,
        d > 0,
        q == m / d,
        rem == m % d,
    ensures
        rem == 0 ==> (-m) / d == -q,
        rem != 0 ==> (-m) / d == -q - 1,
        0 <= q <= m,
        rem != 0 ==> q < m,
        rem == 0 ==> q >= 1,
{
    vstd::arithmetic::div_mod::lemma_fundamental_div_mod(m, d);
    assert(d * (-q) == -(d * q)) by (nonlinear_arith);
    assert(d * (-q - 1) == -(d * q) - d) by (nonlinear_arith);
    assert(0 <= q <= m && (rem != 0 ==> q < m) && (rem == 0 ==> q >= 1)) by (nonlinear_arith)
        requires
            m == d * q + rem,
            0 <= rem < d,
            d >= 1,
            m > 0,
    ;
    if rem == 0 {
        vstd::arithmetic::div_mod::lemma_fundamental_div_mod_converse(-m, d, -q, 0);
    } else {
        vstd::arithmetic::div_mod::lemma_fundamental_div_mod_converse(-m, d, -q - 1, d - rem);
    }
}

/// Ceiling division of a 128-bit integer by a positive divisor.
pub fn ceil_div_i128(n: i128, d: i128) -> (r: i128)
    requires
        d > 0,
        n > i128::MIN,
    ensures
        r == ceil_div(n as int, d as int),
{
    let q = floor_div_i128(-n, d);
    -q
}

/// Rounds `n / d` to the nearest integer, halves up.
pub fn round_div_i128(n: i128, d: i128) -> (r: i128)
    requires
        0 < d < 0x1000_0000_0000_0000_0000_0000_0000,
        -0x1000_0000_0000_0000_0000_0000_0000 < n < 0x1000_0000_0000_0000_0000_0000_0000,
    ensures
        r == round_div(n as int, d as int),
{
    floor_div_i128(2 * n + d, 2 * d)
}

/// Saturates `v` into the fixed-point range.
pub fn saturate_i128(v: i128) -> (r: i64)
    ensures
        r == saturate(v as int),
{
    if v < -(FIXED_LIMIT as i128) {
        -FIXED_LIMIT
    } else if v > FIXED_LIMIT as i128 {
        FIXED_LIMIT
    } else {
        v as i64
    }
}

} // verus!
