//! Saturating, clamping and conversion helpers for `i32`/`u32` geometry.
//!
//! Every helper states its result exactly over mathematical integers, so
//! the callers' contracts can be written without machine arithmetic.

use vstd::prelude::*;

verus! {

/// `x` saturated into the `i32` range.
pub open spec fn sat_i32(x: int) -> i32 {
    if x > i32::MAX {
        i32::MAX
    } else if x < i32::MIN {
        i32::MIN
    } else {
        x as i32
    }
}

/// `x` saturated into the `u32` range.
pub open spec fn sat_u32(x: int) -> u32 {
    if x > u32::MAX {
        u32::MAX
    } else if x < 0 {
        0
    } else {
        x as u32
    }
}

pub open spec fn min_int(a: int, b: int) -> int {
    if a <= b { a } else { b }
}

pub open spec fn max_int(a: int, b: int) -> int {
    if a >= b { a } else { b }
}

/// `v` clamped into `[lo, hi]` (meaningful when `lo <= hi`).
pub open spec fn clamp_int(v: int, lo: int, hi: int) -> int {
    if v < lo { lo } else if v > hi { hi } else { v }
}

/// Saturating `i32` addition.
pub fn sat_add(a: i32, b: i32) -> (r: i32)
    ensures
        r == sat_i32(a + b),
{
    let s: i64 = a as i64 + b as i64;
    if s > i32::MAX as i64 {
        i32::MAX
    } else if s < i32::MIN as i64 {
        i32::MIN
    } else {
        s as i32
    }
}

/// Saturating `i32` subtraction.
pub fn sat_sub(a: i32, b: i32) -> (r: i32)
    ensures
        r == sat_i32(a - b),
{
    let s: i64 = a as i64 - b as i64;
    if s > i32::MAX as i64 {
        i32::MAX
    } else if s < i32::MIN as i64 {
        i32::MIN
    } else {
        s as i32
    }
}

/// Saturating `u32` addition.
pub fn sat_add_u32(a: u32, b: u32) -> (r: u32)
    ensures
        r == sat_u32(a + b),
{
    if a > u32::MAX - b {
        u32::MAX
    } else {
        a + b
    }
}

/// Saturating `u32` subtraction.
pub fn sat_sub_u32(a: u32, b: u32) -> (r: u32)
    ensures
        r == sat_u32(a - b),
{
    if a < b {
        0
    } else {
        a - b
    }
}

pub fn min_i32(a: i32, b: i32) -> (r: i32)
    ensures
        r == min_int(a as int, b as int),
{
    if a <= b { a } else { b }
}

pub fn max_i32(a: i32, b: i32) -> (r: i32)
    ensures
        r == max_int(a as int, b as int),
{
    if a >= b { a } else { b }
}

pub fn min_u32(a: u32, b: u32) -> (r: u32)
    ensures
        r == min_int(a as int, b as int),
{
    if a <= b { a } else { b }
}

pub fn max_u32(a: u32, b: u32) -> (r: u32)
    ensures
        r == max_int(a as int, b as int),
{
    if a >= b { a } else { b }
}

/// `v` clamped into `[lo, hi]`; like `i32::clamp`, it needs `lo <= hi`.
pub fn clamp_i32(v: i32, lo: i32, hi: i32) -> (r: i32)
    requires
        lo <= hi,
    ensures
        r == clamp_int(v as int, lo as int, hi as int),
{
    if v < lo {
        lo
    } else if v > hi {
        hi
    } else {
        v
    }
}

/// `u32` to `i32`, saturating at `i32::MAX` (a failed `try_from` falls back
/// to the maximum).
pub fn u32_to_i32_sat(v: u32) -> (r: i32)
    ensures
        r == min_int(v as int, i32::MAX as int),
{
    if v > i32::MAX as u32 {
        i32::MAX
    } else {
        v as i32
    }
}

/// `max(v, 1)` reinterpreted as `u32` (always positive, so exact).
pub fn pos_u32(v: i32) -> (r: u32)
    ensures
        r == max_int(v as int, 1),
{
    if v < 1 {
        1
    } else {
        v as u32
    }
}

} // verus!

verus! {

/// `u32` reinterpreted as `i32` (two's complement), as `v as i32` does.
pub open spec fn wrap_i32(v: u32) -> i32 {
    if v <= i32::MAX as u32 {
        v as i32
    } else {
        (v - 0x1_0000_0000int) as i32
    }
}

/// Rust's truncating division by 2 (rounds toward zero).
pub open spec fn trunc_half(n: int) -> int {
    if n >= 0 {
        n / 2
    } else {
        -((-n) / 2)
    }
}

/// `v as i32` for a `u32`, stated exactly.
pub fn wrap_u32_to_i32(v: u32) -> (r: i32)
    ensures
        r == wrap_i32(v),
{
    if v <= i32::MAX as u32 {
        v as i32
    } else {
        let low: u32 = v - 0x8000_0000u32;
        (low as i32) + i32::MIN
    }
}

/// `max(v, 0)` as `u32` (exact).
pub fn nonneg_u32(v: i32) -> (r: u32)
    ensures
        r == max_int(v as int, 0),
{
    if v < 0 {
        0
    } else {
        v as u32
    }
}

/// Exact product of two `u32`s in `u64`.
pub fn mul_u64(a: u32, b: u32) -> (r: u64)
    ensures
        r == a * b,
{
    proof {
        assert(a * b <= u32::MAX * u32::MAX) by (nonlinear_arith)
            requires
                a <= u32::MAX,
                b <= u32::MAX,
        ;
    }
    (a as u64) * (b as u64)
}

} // verus!
