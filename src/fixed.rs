use vstd::prelude::*;

verus! {

/// Number of fixed-point steps in one unit.
pub const SCALE: i64 = 1_000_000;

/// Half of `SCALE`: the rounding threshold.
pub const HALF: i64 = 500_000;

pub open spec fn abs(v: int) -> int {
    if v < 0 { -v } else { v }
}

/// Integer division rounding toward zero, as Rust's `/` on signed integers.
pub open spec fn div_trunc(a: int, b: int) -> int {
    if a >= 0 { a / b } else { -((-a) / b) }
}

/// `v / SCALE` rounded to the nearest integer, halves away from zero.
pub open spec fn round_half_away(v: int) -> int {
    if v >= 0 { (v + HALF) / (SCALE as int) } else { -((-v + HALF) / (SCALE as int)) }
}

pub fn abs_i64(v: i64) -> (r: i64)
    requires
        v > i64::MIN,
    ensures
        r == abs(v as int),
{
    if v < 0 { -v } else { v }
}

pub fn div_trunc_i128(a: i128, b: i128) -> (r: i128)
    requires
        b > 0,
        a > i128::MIN,
    ensures
        r == div_trunc(a as int, b as int),
{
    if a >= 0 { a / b } else { -((-a) / b) }
}

/// Rounds a fixed-point value to a whole number of units.
pub fn round_units(v: i64) -> (r: i64)
    requires
        -0x1000_0000_0000_0000 <= v <= 0x1000_0000_0000_0000,
    ensures
        r == round_half_away(v as int),
        abs(r * SCALE - v) <= HALF,
{
    if v >= 0 {
        let r = (v + HALF) / SCALE;
        assert(abs(r * SCALE - v) <= HALF) by (nonlinear_arith)
            requires r == (v + HALF) / (SCALE as int), v >= 0;
        r
    } else {
        let r = -((-v + HALF) / SCALE);
        assert(abs(r * SCALE - v) <= HALF) by (nonlinear_arith)
            requires r == -((-v + HALF) / (SCALE as int)), v < 0;
        r
    }
}

} // verus!
