//! Exact brightness arithmetic.
//!
//! Brightness travels between the UI and the device in two shapes: the
//! device's native integer units in `0 ..= max`, and a normalized fraction
//! meant to lie in `[0, 1]`. A fraction is kept exactly as a ratio of two
//! integers, so reading (`current / max`), clamping, scaling and rounding
//! are all integer arithmetic with precise contracts.

use vstd::prelude::*;
use vstd::arithmetic::div_mod::{
    lemma_basic_div, lemma_div_multiples_vanish_fancy, lemma_div_pos_is_pos,
    lemma_fundamental_div_mod, lemma_mod_division_less_than_divisor, lemma_multiply_divide_lt,
    lemma_remainder_lower,
};

verus! {

/// A brightness fraction, stored exactly as the ratio `num / den`.
///
/// The denominator is always positive ([`Fraction::wf`]); the numerator may
/// lie outside `[0, den]`, since the UI is free to send out-of-range
/// requests, which the write path clamps.
#[derive(Clone, Copy, Debug, PartialEq, Eq)]
pub struct Fraction {
    pub num: i32,
    pub den: i32,
}

impl Fraction {
    /// Well-formed: the denominator is positive.
    pub open spec fn wf(self) -> bool {
        self.den > 0
    }

    /// Builds `num / den`; a non-positive denominator is rejected.
    pub fn new(num: i32, den: i32) -> (r: Option<Fraction>)
        ensures
            r is Some <==> den > 0,
            den > 0 ==> r == Some((Fraction { num, den })) && r.unwrap().wf(),
    {
        if den > 0 {
            Some(Fraction { num, den })
        } else {
            None
        }
    }
}

/// The numerator of `num / den` clamped into `[0, 1]`: below zero becomes
/// `0`, above one becomes `den` (that is, exactly one).
pub open spec fn clamp01_num(num: int, den: int) -> int {
    if num < 0 {
        0
    } else if num > den {
        den
    } else {
        num
    }
}

/// `a / den` rounded to the nearest integer, halves rounded up, for
/// `a >= 0` and `den > 0`. (On the non-negative values used here this
/// agrees with rounding halves away from zero.)
pub open spec fn round_div(a: int, den: int) -> int {
    (2 * a + den) / (2 * den)
}

/// The device units written for fraction `f` at device maximum `max`:
/// `round(clamp(f, 0, 1) * max)`.
pub open spec fn write_units_spec(f: Fraction, max: int) -> int {
    round_div(clamp01_num(f.num as int, f.den as int) * max, f.den as int)
}

/// The rounded, clamped product stays within the device range:
/// for `0 <= c <= den` and `max >= 0`, `round(c * max / den)` is in
/// `[0, max]`.
pub proof fn lemma_round_div_bounds(c: int, den: int, max: int)
    requires
        0 <= c <= den,
        0 < den,
        0 <= max,
    ensures
        0 <= round_div(c * max, den) <= max,
{
    let a = 2 * (c * max) + den;
    assert(0 <= c * max) by (nonlinear_arith)
        requires
            0 <= c,
            0 <= max,
    ;
    lemma_div_pos_is_pos(a, 2 * den);
    assert(a < (2 * den) * (max + 1)) by (nonlinear_arith)
        requires
            0 <= c <= den,
            0 < den,
            0 <= max,
            a == 2 * (c * max) + den,
    ;
    lemma_multiply_divide_lt(a, 2 * den, max + 1);
}

/// Converts a fraction to device units: clamp into `[0, 1]`, scale by the
/// device maximum, round to the nearest unit.
pub fn write_units(f: Fraction, max_units: i32) -> (r: i32)
    requires
        f.wf(),
        max_units >= 0,
    ensures
        r == write_units_spec(f, max_units as int),
        0 <= r <= max_units,
{
    let c: i32 = if f.num < 0 {
        0
    } else if f.num > f.den {
        f.den
    } else {
        f.num
    };
    let n: u64 = c as u64;
    let d: u64 = f.den as u64;
    let m: u64 = max_units as u64;
    proof {
        assert(c as int == clamp01_num(f.num as int, f.den as int));
        assert(2 * (n as int) * (m as int) + (d as int) <= 0xffff_ffff_ffff_ffff) by (nonlinear_arith)
            requires
                0 <= n as int <= 0x7fff_ffff,
                0 <= m as int <= 0x7fff_ffff,
                0 < d as int <= 0x7fff_ffff,
        ;
        lemma_round_div_bounds(n as int, d as int, m as int);
        assert(2 * ((n as int) * (m as int)) == 2 * (n as int) * (m as int)) by (nonlinear_arith);
    }
    let q: u64 = (2 * n * m + d) / (2 * d);
    q as i32
}

/// The model of one brightness read: `current / max` when both raw reads
/// succeeded and the reported maximum is positive; unknown otherwise.
pub open spec fn frac_of(current: Option<i32>, max: Option<i32>) -> Option<Fraction> {
    match (current, max) {
        (Some(c), Some(m)) => if m > 0 {
            Some(Fraction { num: c, den: m })
        } else {
            None
        },
        _ => None,
    }
}

/// Combines the two raw property reads into a brightness fraction.
/// A failed read on either side, or a non-positive maximum, yields an
/// unknown brightness rather than an error.
pub fn read_fraction(current: Option<i32>, max: Option<i32>) -> (r: Option<Fraction>)
    ensures
        r == frac_of(current, max),
        r matches Some(f) ==> f.wf(),
{
    match (current, max) {
        (Some(c), Some(m)) => {
            if m > 0 {
                Some(Fraction { num: c, den: m })
            } else {
                None
            }
        },
        _ => None,
    }
}

/// Clamping below: a fraction under zero writes the same units as exactly
/// zero, namely none at all.
pub proof fn lemma_write_clamps_low(f: Fraction, max: int)
    requires
        f.wf(),
        f.num < 0,
        0 <= max,
    ensures
        write_units_spec(f, max) == write_units_spec((Fraction { num: 0, den: f.den }), max),
        write_units_spec(f, max) == 0,
{
    let den = f.den as int;
    assert(clamp01_num(f.num as int, den) == 0);
    assert(0 * max == 0) by (nonlinear_arith);
    lemma_basic_div(den, 2 * den);
}

/// Clamping above: a fraction over one writes the same units as exactly
/// one, namely the full device maximum.
pub proof fn lemma_write_clamps_high(f: Fraction, max: int)
    requires
        f.wf(),
        f.num > f.den,
        0 <= max,
    ensures
        write_units_spec(f, max) == write_units_spec((Fraction { num: f.den, den: f.den }), max),
        write_units_spec(f, max) == max,
{
    let den = f.den as int;
    assert(clamp01_num(f.num as int, den) == den);
    assert(2 * (den * max) + den == (2 * den) * max + den) by (nonlinear_arith);
    lemma_div_multiples_vanish_fancy(max, den, 2 * den);
}

/// Round trip: writing an in-range fraction `f` and immediately reading
/// the device back gives `w / max` with `|w / max - f| <= 1 / max`.
/// Cleared of divisions, that error bound reads
/// `|w * f.den - f.num * max| <= f.den`.
pub proof fn lemma_write_read_round_trip(f: Fraction, max: int)
    requires
        f.wf(),
        0 <= f.num <= f.den,
        0 < max,
    ensures
        ({
            let w = write_units_spec(f, max);
            -(f.den as int) <= w * (f.den as int) - (f.num as int) * max <= f.den as int
        }),
{
    let den = f.den as int;
    let a = (f.num as int) * max;
    let w = write_units_spec(f, max);
    assert(clamp01_num(f.num as int, den) == f.num as int);
    let x = 2 * a + den;
    let dd = 2 * den;
    lemma_fundamental_div_mod(x, dd);
    let r = x % dd;
    lemma_mod_division_less_than_divisor(x, dd);
    lemma_remainder_lower(x, dd);
    assert(0 <= a) by (nonlinear_arith)
        requires
            0 <= f.num as int,
            0 < max,
            a == (f.num as int) * max,
    ;
    assert(x == dd * w + r);
    assert(dd * w == 2 * (den * w)) by (nonlinear_arith)
        requires
            dd == 2 * den,
    ;
    assert(2 * (den * w) - 2 * a == den - r);
    assert(w * den == den * w) by (nonlinear_arith);
}

} // verus!
