//! Evaluation of the derived coefficients against raw ADC codes.
//!
//! Temperatures are kept as exact numerators over `TEMPERATURE_SCALE`.
//! The integer-valued temperature-dependent terms (pressure `var2`,
//! humidity `var3`) are computed exactly from such a numerator, rounding
//! toward zero as the vendor formula does.
use vstd::prelude::*;
use crate::calibration::{
    derived_from, trims_wf, DerivedCoefficients, HumidityCoefficients, Quadratic,
    TrimConstants, TEMPERATURE_SCALE,
};

verus! {

/// Division that rounds toward zero.
pub open spec fn trunc_div(n: int, d: int) -> int {
    if n >= 0 {
        n / d
    } else {
        -((-n) / d)
    }
}

/// Value of a quadratic at `x`.
pub open spec fn quadratic_at(q: Quadratic, x: int) -> int {
    q.a * x * x + q.b * x + q.c
}

/// The temperature numerator (over `TEMPERATURE_SCALE`) for a raw ADC code.
pub open spec fn temperature_numerator(d: DerivedCoefficients, adc: int) -> int {
    quadratic_at(d.temperature, adc)
}

/// Pressure `var2` at the temperature `n / TEMPERATURE_SCALE`, rounded
/// toward zero: the quadratic over `PRESSURE_VAR2_SCALE`, with the
/// temperature's denominator cleared.
pub open spec fn pressure_var2_at(d: DerivedCoefficients, n: int) -> int {
    let s = TEMPERATURE_SCALE as int;
    let q = d.pressure_var2;
    trunc_div(q.a * n * n + q.b * n * s + q.c * s * s, s * s * 8192)
}

/// Humidity `var3` at the temperature `n / TEMPERATURE_SCALE`: `h1` plus
/// `h3 / 2 * temperature` rounded toward zero.
pub open spec fn humidity_var3_at(h: HumidityCoefficients, n: int) -> int {
    h.h1 + trunc_div(h.h3 * n, 2 * TEMPERATURE_SCALE)
}

/// Ranges that every set of derived coefficients keeps, and that keep
/// evaluation within machine integers.
pub open spec fn coefficients_bounded(d: DerivedCoefficients) -> bool {
    &&& -128 <= d.temperature.a < 128
    &&& -0x100000000 < d.temperature.b < 0x100000000
    &&& -0x10000000000000 < d.temperature.c < 0x10000000000000
    &&& -3201 < d.pressure_var2.a < 3201
    &&& -0x8000000 < d.pressure_var2.b < 0x8000000
    &&& -0x200000000 < d.pressure_var2.c < 0x200000000
    &&& 0 <= d.humidity.h1 < 65536
    &&& -128 <= d.humidity.h3 < 128
}

/// Coefficients derived from trim constants keep the evaluation ranges.
pub proof fn lemma_derived_bounded(d: DerivedCoefficients, t: TrimConstants)
    requires
        derived_from(d, t),
        trims_wf(t),
    ensures
        coefficients_bounded(d),
{
    let t1 = t.par_t1 as int;
    let t2 = t.par_t2 as int;
    let t3 = t.par_t3 as int;
    assert(-0x800000 * 32 < t1 * t3 * 32 < 0x800000 * 32) by (nonlinear_arith)
        requires 0 <= t1 < 65536, -128 <= t3 < 128;
    assert(-0x80000000 * 0x100000 <= t1 * t2 * 1048576 <= 0x80000000 * 0x100000) by (nonlinear_arith)
        requires 0 <= t1 < 65536, -32768 <= t2 < 32768;
    assert(-0x800000000000 < t1 * t1 * t3 * 256 < 0x800000000000) by (nonlinear_arith)
        requires 0 <= t1 < 65536, -128 <= t3 < 128;
}

/// Evaluates the temperature quadratic at a raw ADC code.
pub fn temperature_at(d: &DerivedCoefficients, adc: u32) -> (r: i64)
    requires
        coefficients_bounded(*d),
        adc < 0x100000,
    ensures
        r == temperature_numerator(*d, adc as int),
        -0x40000000000000 < r < 0x40000000000000,
{
    let q = d.temperature;
    let x = adc as i64;
    assert(-0x8000000 < q.a * x < 0x8000000) by (nonlinear_arith)
        requires -128 <= q.a < 128, 0 <= x < 0x100000;
    assert(-0x800000000000 < q.a * x * x < 0x800000000000) by (nonlinear_arith)
        requires -0x8000000 < q.a * x < 0x8000000, 0 <= x < 0x100000;
    assert(-0x10000000000000 < q.b * x < 0x10000000000000) by (nonlinear_arith)
        requires -0x100000000 < q.b < 0x100000000, 0 <= x < 0x100000;
    q.a * x * x + q.b * x + q.c
}

/// A quotient rounded toward zero stays below `k` in magnitude when the
/// dividend stays below `k` times the divisor.
proof fn lemma_trunc_div_bound(n: int, d: int, k: int)
    requires
        d > 0,
        -k * d < n < k * d,
    ensures
        -k < trunc_div(n, d) < k,
{
    let m = if n >= 0 { n } else { -n };
    assert(-k * d == -(k * d)) by (nonlinear_arith);
    vstd::arithmetic::div_mod::lemma_fundamental_div_mod(m, d);
    vstd::arithmetic::div_mod::lemma_div_pos_is_pos(m, d);
    assert(m / d < k) by (nonlinear_arith)
        requires m == d * (m / d) + m % d, 0 <= m % d, m < k * d, d > 0, m / d >= 0;
}

fn trunc_div_i128(n: i128, d: i128) -> (r: i128)
    requires
        d > 0,
        n > i128::MIN,
    ensures
        r == trunc_div(n as int, d as int),
{
    if n >= 0 {
        ((n as u128) / (d as u128)) as i128
    } else {
        -((((-n) as u128) / (d as u128)) as i128)
    }
}

/// Pressure `var2` at the temperature with numerator `n`.
pub fn pressure_var2(d: &DerivedCoefficients, n: i64) -> (r: i64)
    requires
        coefficients_bounded(*d),
        -0x40000000000000 < n < 0x40000000000000,
    ensures
        r == pressure_var2_at(*d, n as int),
        -0x100000000 < r < 0x100000000,
{
    let q = d.pressure_var2;
    let s = TEMPERATURE_SCALE as i128;
    let x = n as i128;
    let a = q.a as i128;
    let b = q.b as i128;
    let c = q.c as i128;
    assert(-0x1000000000000000000000000000 < x * x < 0x1000000000000000000000000000) by (nonlinear_arith)
        requires -0x40000000000000 < x < 0x40000000000000;
    assert(-0x1000000000000000000000000000 * 3201 < a * (x * x) < 0x1000000000000000000000000000 * 3201) by (nonlinear_arith)
        requires -0x1000000000000000000000000000 < x * x < 0x1000000000000000000000000000, -3201 < a < 3201;
    assert(-0x200000000000000000000 < b * x < 0x200000000000000000000) by (nonlinear_arith)
        requires -0x8000000 < b < 0x8000000, -0x40000000000000 < x < 0x40000000000000;
    assert(-0x200000000000000000000 * 0x80000000000 < (b * x) * s < 0x200000000000000000000 * 0x80000000000) by (nonlinear_arith)
        requires -0x200000000000000000000 < b * x < 0x200000000000000000000, s == 5497558138880;
    assert(-0x200000000 * 0x4000000000000000000000 < c * (s * s) < 0x200000000 * 0x4000000000000000000000) by (nonlinear_arith)
        requires -0x200000000 < c < 0x200000000, s == 5497558138880;
    let num = a * (x * x) + (b * x) * s + c * (s * s);
    assert(num == q.a * n * n + q.b * n * s + q.c * s * s) by (nonlinear_arith)
        requires num == a * (x * x) + (b * x) * s + c * (s * s), a == q.a, b == q.b, c == q.c, x == n;
    let r = trunc_div_i128(num, s * s * 8192);
    proof {
        lemma_trunc_div_bound(num as int, s * s * 8192, 0x100000000);
    }
    r as i64
}

/// Humidity `var3` at the temperature with numerator `n`.
pub fn humidity_var3(d: &DerivedCoefficients, n: i64) -> (r: i32)
    requires
        coefficients_bounded(*d),
        -0x40000000000000 < n < 0x40000000000000,
    ensures
        r == humidity_var3_at(d.humidity, n as int),
        -0x100000 < r < 0x200000,
{
    let h3 = d.humidity.h3 as i128;
    let x = n as i128;
    assert(-0x2000000000000000 < h3 * x < 0x2000000000000000) by (nonlinear_arith)
        requires -128 <= h3 < 128, -0x40000000000000 < x < 0x40000000000000;
    let q = trunc_div_i128(h3 * x, 2 * TEMPERATURE_SCALE as i128);
    proof {
        lemma_trunc_div_bound(h3 * x, 2 * TEMPERATURE_SCALE, 0x100000);
    }
    d.humidity.h1 + q as i32
}

/// At a raw temperature code of 0 the temperature numerator is exactly the
/// quadratic's constant term.
pub proof fn lemma_zero_adc(d: DerivedCoefficients)
    ensures
        temperature_numerator(d, 0) == d.temperature.c,
{
}

/// Pressure `var1` at the temperature `n / TEMPERATURE_SCALE`, times
/// `TEMPERATURE_SCALE^2 * PRESSURE_VAR1_SCALE`: zero exactly when `var1` is.
pub open spec fn pressure_var1_numerator(d: DerivedCoefficients, n: int) -> int {
    let s = TEMPERATURE_SCALE as int;
    let q = d.pressure_var1;
    q.a * n * n + q.b * n * s + q.c * s * s
}

/// The factor of `pressure_var1_numerator` besides `25 * par_p1`, with the
/// temperature measured from 25 degrees: `m = n - 25 * TEMPERATURE_SCALE`.
pub open spec fn pressure_var1_factor(t: TrimConstants, n: int) -> int {
    let m = n - 0x7d0000000000;
    0x4000000000000000000000000000 + t.par_p3 * m * m + 0x200000000000 * t.par_p2 * m
}

/// `var1` is `25 * par_p1` times a quadratic that needs no more than 118
/// bits at any temperature the sensor can report.
pub proof fn lemma_pressure_var1_factors(d: DerivedCoefficients, t: TrimConstants, n: int)
    requires
        derived_from(d, t),
    ensures
        pressure_var1_numerator(d, n) == 25 * t.par_p1 * pressure_var1_factor(t, n),
{
    let s = TEMPERATURE_SCALE as int;
    let m = n - 0x7d0000000000;
    let p1 = t.par_p1 as int;
    let p2 = t.par_p2 as int;
    let p3 = t.par_p3 as int;
    assert(25 * n * n - 1250 * n * s + 15625 * s * s == 25 * (m * m)) by (nonlinear_arith)
        requires s == 5497558138880, m == n - 0x7d0000000000;
    assert(160 * n * s - 4000 * s * s == 25 * 0x200000000000 * m) by (nonlinear_arith)
        requires s == 5497558138880, m == n - 0x7d0000000000;
    let inner = 25 * p3 * n * n + 10 * (16 * p2 - 125 * p3) * n * s
        + (1073741824 + 15625 * p3 - 4000 * p2) * s * s;
    assert(10 * (16 * p2 - 125 * p3) * n * s == p2 * (160 * n * s) - p3 * (1250 * n * s))
        by (nonlinear_arith);
    assert((1073741824 + 15625 * p3 - 4000 * p2) * s * s
        == 1073741824 * (s * s) + p3 * (15625 * s * s) - p2 * (4000 * s * s)) by (nonlinear_arith);
    assert(25 * p3 * n * n == p3 * (25 * n * n)) by (nonlinear_arith);
    assert(p3 * (25 * n * n - 1250 * n * s + 15625 * s * s)
        == p3 * (25 * n * n) - p3 * (1250 * n * s) + p3 * (15625 * s * s)) by (nonlinear_arith);
    assert(p2 * (160 * n * s - 4000 * s * s) == p2 * (160 * n * s) - p2 * (4000 * s * s))
        by (nonlinear_arith);
    assert(inner == p3 * (25 * n * n - 1250 * n * s + 15625 * s * s) + p2 * (160 * n * s - 4000 * s * s)
        + 1073741824 * (s * s));
    assert(1073741824 * (s * s) == 25 * 0x4000000000000000000000000000) by (nonlinear_arith)
        requires s == 5497558138880;
    assert(inner == 25 * pressure_var1_factor(t, n)) by (nonlinear_arith)
        requires
            inner == p3 * (25 * (m * m)) + p2 * (25 * 0x200000000000 * m) + 25 * 0x4000000000000000000000000000,
            pressure_var1_factor(t, n) == 0x4000000000000000000000000000 + p3 * m * m + 0x200000000000 * p2 * m;
    let q = d.pressure_var1;
    let qa = 25 * p3;
    let qb = 10 * (16 * p2 - 125 * p3);
    let qc = 1073741824 + 15625 * p3 - 4000 * p2;
    assert(q.a == p1 * qa) by (nonlinear_arith)
        requires q.a == 25 * p1 * p3, qa == 25 * p3;
    assert(q.b == p1 * qb) by (nonlinear_arith)
        requires q.b == 10 * p1 * (16 * p2 - 125 * p3), qb == 10 * (16 * p2 - 125 * p3);
    assert(q.a * n * n == p1 * (qa * n * n)) by (nonlinear_arith)
        requires q.a == p1 * qa;
    assert(q.b * n * s == p1 * (qb * n * s)) by (nonlinear_arith)
        requires q.b == p1 * qb;
    assert(q.c * s * s == p1 * (qc * s * s)) by (nonlinear_arith)
        requires q.c == p1 * qc;
    assert(pressure_var1_numerator(d, n) == p1 * inner) by (nonlinear_arith)
        requires
            pressure_var1_numerator(d, n) == p1 * (qa * n * n) + p1 * (qb * n * s) + p1 * (qc * s * s),
            inner == qa * n * n + qb * n * s + qc * s * s;
    assert(p1 * inner == 25 * p1 * pressure_var1_factor(t, n)) by (nonlinear_arith)
        requires inner == 25 * pressure_var1_factor(t, n);
}

/// Whether pressure `var1` vanishes at the temperature with numerator `n`
/// (the pressure formula divides by it).
pub fn pressure_var1_vanishes(t: &TrimConstants, n: i64) -> (r: bool)
    requires
        -0x40000000000000 < n < 0x40000000000000,
    ensures
        r == (t.par_p1 == 0 || pressure_var1_factor(*t, n as int) == 0),
{
    let m = n as i128 - 0x7d0000000000;
    let p2 = t.par_p2 as i128;
    let p3 = t.par_p3 as i128;
    assert(-0x80000000000000 < m < 0x80000000000000);
    assert(0 <= m * m < 0x4000000000000000000000000000) by (nonlinear_arith)
        requires -0x80000000000000 < m < 0x80000000000000;
    assert(-0x200000000000000000000000000000 < p3 * (m * m) < 0x200000000000000000000000000000)
        by (nonlinear_arith)
        requires 0 <= m * m < 0x4000000000000000000000000000, -128 <= p3 < 128;
    assert(-0x40000000000000000000 < p2 * m < 0x40000000000000000000) by (nonlinear_arith)
        requires -0x80000000000000 < m < 0x80000000000000, -32768 <= p2 < 32768;
    let w = 0x4000000000000000000000000000 + p3 * (m * m) + 0x200000000000 * (p2 * m);
    assert(w == pressure_var1_factor(*t, n as int)) by (nonlinear_arith)
        requires
            w == 0x4000000000000000000000000000 + p3 * (m * m) + 0x200000000000 * (p2 * m),
            m == n - 0x7d0000000000,
            p2 == t.par_p2,
            p3 == t.par_p3;
    t.par_p1 == 0 || w == 0
}

} // verus!
