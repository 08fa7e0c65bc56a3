//! Fixed-point helpers for angles and planar vectors.
//!
//! Every scalar of the vehicle model is an integer number of thousandths:
//! millimetres for lengths, milliradians for angles, milliseconds for time.

use vstd::prelude::*;

verus! {

/// Thousandths in one whole unit.
pub const UNIT: i32 = 1000;

/// Half a turn, in milliradians.
pub const PI: i32 = 3142;

/// A full turn, in milliradians: exactly twice [`PI`].
pub const TAU: i32 = 6284;

/// The angle in `(-PI, PI]` that differs from `angle` by whole turns.
pub open spec fn wrapped(angle: int) -> int {
    let r = angle % (TAU as int);
    if r > PI {
        r - TAU
    } else {
        r
    }
}

/// The shortest signed turn from `current` to `target`.
pub open spec fn shortest_turn(target: int, current: int) -> int {
    wrapped(target - current)
}

/// Absolute value.
pub open spec fn abs_value(v: int) -> int {
    if v < 0 {
        -v
    } else {
        v
    }
}

/// `v` brought into the range of `i32`.
pub open spec fn saturated(v: int) -> int {
    if v < i32::MIN {
        i32::MIN as int
    } else if v > i32::MAX {
        i32::MAX as int
    } else {
        v
    }
}

/// Squared length of the planar vector `(x, y)`.
pub open spec fn squared_length(x: int, y: int) -> int {
    x * x + y * y
}

/// `n / d` rounded towards negative infinity.
pub fn div_floor(n: i128, d: i128) -> (r: i128)
    requires
        d > 0,
    ensures
        r == n / d,
{
    if n >= 0 {
        n / d
    } else {
        let m: i128 = -(n + 1);
        let q: i128 = m / d;
        proof {
            // n = -(m + 1), and m = q * d + (m % d) with 0 <= m % d < d.
            assert(n == (-q - 1) * d + (d - 1 - (m % d))) by (nonlinear_arith)
                requires
                    n == -(m + 1),
                    d > 0,
                    m >= 0,
                    q == m / d,
            ;
            vstd::arithmetic::div_mod::lemma_fundamental_div_mod_converse(
                n as int,
                d as int,
                (-q - 1) as int,
                (d - 1 - (m % d)) as int,
            );
        }
        -q - 1
    }
}

/// `n % d` with a result in `[0, d)`.
pub fn rem_floor(n: i128, d: i128) -> (r: i128)
    requires
        d > 0,
    ensures
        r == n % d,
        0 <= r < d,
{
    if n >= 0 {
        n % d
    } else {
        let m: i128 = -(n + 1);
        let q: i128 = m / d;
        let k: i128 = m % d;
        proof {
            assert(n == (-q - 1) * d + (d - 1 - k)) by (nonlinear_arith)
                requires
                    n == -(m + 1),
                    d > 0,
                    m >= 0,
                    q == m / d,
                    k == m % d,
            ;
            vstd::arithmetic::div_mod::lemma_fundamental_div_mod_converse(
                n as int,
                d as int,
                (-q - 1) as int,
                (d - 1 - k) as int,
            );
        }
        d - 1 - k
    }
}

/// Brings an angle into `(-PI, PI]` by whole turns.
pub fn normalize(angle: i128) -> (r: i32)
    ensures
        r == wrapped(angle as int),
        -PI < r <= PI,
{
    let r: i128 = rem_floor(angle, 6284);
    if r > 3142 {
        (r - 6284) as i32
    } else {
        r as i32
    }
}

/// The shortest signed turn from `current` to `target`.
pub fn delta_dir(target: i32, current: i32) -> (r: i32)
    ensures
        r == shortest_turn(target as int, current as int),
        -PI < r <= PI,
{
    normalize(target as i128 - current as i128)
}

/// Absolute value, in a type that holds it for every `i32`.
pub fn magnitude(v: i32) -> (r: i64)
    ensures
        r == abs_value(v as int),
{
    if v < 0 {
        -(v as i64)
    } else {
        v as i64
    }
}

/// Brings a value into the range of `i32`.
pub fn saturate(v: i128) -> (r: i32)
    ensures
        r == saturated(v as int),
{
    if v < -2147483648 {
        i32::MIN
    } else if v > 2147483647 {
        i32::MAX
    } else {
        v as i32
    }
}

/// Squared length of a planar vector whose components are differences of
/// two `i32`.
pub fn length_squared(x: i64, y: i64) -> (r: i128)
    requires
        -0x1_0000_0000 <= x <= 0x1_0000_0000,
        -0x1_0000_0000 <= y <= 0x1_0000_0000,
    ensures
        r == squared_length(x as int, y as int),
        r >= 0,
{
    proof {
        lemma_product_bounds(x as int, x as int, 0x1_0000_0000, 0x1_0000_0000);
        lemma_product_bounds(y as int, y as int, 0x1_0000_0000, 0x1_0000_0000);
        assert(x * x >= 0 && y * y >= 0) by (nonlinear_arith);
    }
    (x as i128) * (x as i128) + (y as i128) * (y as i128)
}

/// A product is bounded by the product of the bounds of its factors.
pub proof fn lemma_product_bounds(a: int, b: int, bound_a: int, bound_b: int)
    by (nonlinear_arith)
    requires
        -bound_a <= a <= bound_a,
        -bound_b <= b <= bound_b,
    ensures
        -(bound_a * bound_b) <= a * b <= bound_a * bound_b,
{
}

} // verus!
