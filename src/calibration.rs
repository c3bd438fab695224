//! Factory trim constants and the polynomial coefficients derived from them.
//!
//! Every coefficient is an exact integer; the physical value it stands for
//! is that integer divided by a fixed scale, given beside each group.
use vstd::prelude::*;
use crate::registers::{i8_of, i16_of, u16_of, read_i8, read_i16_le, read_u16_le};
use crate::registers::{TRIM_BLOCK_A_LEN, TRIM_BLOCK_B_LEN, TRIM_BLOCK_C_LEN};

verus! {

/// The device's factory trim constants, each with its register width and
/// signedness.
#[derive(Clone, Copy, Debug, PartialEq, Eq, Structural)]
pub struct TrimConstants {
    pub par_t1: u16,
    pub par_t2: i16,
    pub par_t3: i8,
    pub par_p1: u16,
    pub par_p2: i16,
    pub par_p3: i8,
    pub par_p4: i16,
    pub par_p5: i16,
    pub par_p6: i8,
    pub par_p7: i8,
    pub par_p8: i16,
    pub par_p9: i16,
    pub par_p10: i8,
    /// 12-bit value packed from 0xE3 and the low nibble of 0xE2.
    pub par_h1: u16,
    /// 12-bit value packed from 0xE1 and the high nibble of 0xE2.
    pub par_h2: u16,
    pub par_h3: i8,
    pub par_h4: i8,
    pub par_h5: i8,
    pub par_h6: i8,
    pub par_h7: i8,
    pub par_g1: i8,
    pub par_g2: i16,
    pub par_g3: i8,
    /// Heater resistance range: bits 4..5 of register 0x02.
    pub res_heat_range: u8,
    /// Heater resistance correction: register 0x00.
    pub res_heat_val: i8,
}

/// The trim constants held by the three trim blocks (see the block
/// constants of `registers`): `a` from 0x8A, `b` from 0xE1, `c` from 0x00.
pub open spec fn trims_of(a: Seq<u8>, b: Seq<u8>, c: Seq<u8>) -> TrimConstants {
    TrimConstants {
        par_t1: u16_of(b[9], b[8]) as u16,
        par_t2: i16_of(a[1], a[0]) as i16,
        par_t3: i8_of(a[2]) as i8,
        par_p1: u16_of(a[5], a[4]) as u16,
        par_p2: i16_of(a[7], a[6]) as i16,
        par_p3: i8_of(a[8]) as i8,
        par_p4: i16_of(a[11], a[10]) as i16,
        par_p5: i16_of(a[13], a[12]) as i16,
        par_p6: i8_of(a[15]) as i8,
        par_p7: i8_of(a[14]) as i8,
        par_p8: i16_of(a[19], a[18]) as i16,
        par_p9: i16_of(a[21], a[20]) as i16,
        par_p10: i8_of(a[22]) as i8,
        par_h1: (b[2] * 16 + b[1] % 16) as u16,
        par_h2: (b[0] * 16 + b[1] / 16) as u16,
        par_h3: i8_of(b[3]) as i8,
        par_h4: i8_of(b[4]) as i8,
        par_h5: i8_of(b[5]) as i8,
        par_h6: i8_of(b[6]) as i8,
        par_h7: i8_of(b[7]) as i8,
        par_g1: i8_of(b[12]) as i8,
        par_g2: i16_of(b[11], b[10]) as i16,
        par_g3: i8_of(b[13]) as i8,
        res_heat_range: (c[2] / 16 % 4) as u8,
        res_heat_val: i8_of(c[0]) as i8,
    }
}

/// Decodes the trim constants from the three trim blocks.
pub fn decode_trims(a: &[u8], b: &[u8], c: &[u8]) -> (r: TrimConstants)
    requires
        a@.len() == TRIM_BLOCK_A_LEN,
        b@.len() == TRIM_BLOCK_B_LEN,
        c@.len() == TRIM_BLOCK_C_LEN,
    ensures
        r == trims_of(a@, b@, c@),
{
    let shared = b[1];
    TrimConstants {
        par_t1: read_u16_le(b[8], b[9]),
        par_t2: read_i16_le(a[0], a[1]),
        par_t3: read_i8(a[2]),
        par_p1: read_u16_le(a[4], a[5]),
        par_p2: read_i16_le(a[6], a[7]),
        par_p3: read_i8(a[8]),
        par_p4: read_i16_le(a[10], a[11]),
        par_p5: read_i16_le(a[12], a[13]),
        par_p6: read_i8(a[15]),
        par_p7: read_i8(a[14]),
        par_p8: read_i16_le(a[18], a[19]),
        par_p9: read_i16_le(a[20], a[21]),
        par_p10: read_i8(a[22]),
        par_h1: (b[2] as u16) * 16 + (shared as u16) % 16,
        par_h2: (b[0] as u16) * 16 + (shared as u16) / 16,
        par_h3: read_i8(b[3]),
        par_h4: read_i8(b[4]),
        par_h5: read_i8(b[5]),
        par_h6: read_i8(b[6]),
        par_h7: read_i8(b[7]),
        par_g1: read_i8(b[12]),
        par_g2: read_i16_le(b[10], b[11]),
        par_g3: read_i8(b[13]),
        res_heat_range: c[2] / 16 % 4,
        res_heat_val: read_i8(c[0]),
    }
}


/// Divisor that turns temperature coefficients into degrees Celsius:
/// `temperature = (a * adc^2 + b * adc + c) / TEMPERATURE_SCALE` (5 * 2^40).
pub const TEMPERATURE_SCALE: i64 = 5497558138880;

/// Divisor of the pressure `var1` quadratic in the temperature (3125 * 2^31).
pub const PRESSURE_VAR1_SCALE: i64 = 6710886400000;

/// Divisor of the pressure `var2` quadratic in the temperature (2^13).
pub const PRESSURE_VAR2_SCALE: i64 = 8192;

/// Divisor of the pressure cubic; its result is in millibar (25 * 2^47).
pub const PRESSURE_CUBIC_SCALE: i64 = 3518437208883200;

/// Empirical offset added to the pressure cubic, in millibar.
pub const PRESSURE_OFFSET_MBAR: i64 = 28;

/// Coefficients of `a * x^2 + b * x + c`.
#[derive(Clone, Copy, Debug, PartialEq, Eq, Structural)]
pub struct Quadratic {
    pub a: i64,
    pub b: i64,
    pub c: i64,
}

/// Coefficients of `a * x^3 + b * x^2 + c * x + d`.
#[derive(Clone, Copy, Debug, PartialEq, Eq, Structural)]
pub struct Cubic {
    pub a: i64,
    pub b: i64,
    pub c: i64,
    pub d: i64,
}

/// Humidity coefficients. With `t` the temperature in degrees Celsius:
/// `var3 = h1 + h3 / 2^1 * t`,
/// `var4 = h2 / 2^18 + h4 / 2^32 * t + h5 / 2^38 * t^2`,
/// `var5 = h6 / 2^14 + h7 / 2^21 * t`.
#[derive(Clone, Copy, Debug, PartialEq, Eq, Structural)]
pub struct HumidityCoefficients {
    pub h1: i32,
    pub h2: i64,
    pub h3: i64,
    pub h4: i64,
    pub h5: i64,
    pub h6: i64,
    pub h7: i64,
}

/// All coefficients that compensation needs.
#[derive(Clone, Copy, Debug, PartialEq, Eq, Structural)]
pub struct DerivedCoefficients {
    /// Temperature as a quadratic in the raw temperature ADC code, over
    /// `TEMPERATURE_SCALE`.
    pub temperature: Quadratic,
    /// Pressure `var1` as a quadratic in the temperature, over
    /// `PRESSURE_VAR1_SCALE`.
    pub pressure_var1: Quadratic,
    /// Pressure `var2` as a quadratic in the temperature, over
    /// `PRESSURE_VAR2_SCALE`.
    pub pressure_var2: Quadratic,
    /// Pressure as a cubic in the compensated pressure code, over
    /// `PRESSURE_CUBIC_SCALE`.
    pub pressure: Cubic,
    pub humidity: HumidityCoefficients,
}

/// Temperature quadratic: `t_fine * 2^30` of the vendor formula as a
/// polynomial in the ADC code.
pub open spec fn temperature_quadratic(t: TrimConstants) -> (int, int, int) {
    (
        t.par_t3 as int,
        t.par_t2 * 65536 - t.par_t1 * t.par_t3 * 32,
        t.par_t1 * t.par_t1 * t.par_t3 * 256 - t.par_t1 * t.par_t2 * 1048576,
    )
}

/// Pressure `var1` quadratic in the temperature.
pub open spec fn pressure_var1_quadratic(t: TrimConstants) -> (int, int, int) {
    (
        25 * t.par_p1 * t.par_p3,
        10 * t.par_p1 * (16 * t.par_p2 - 125 * t.par_p3),
        t.par_p1 * (1073741824 + 15625 * t.par_p3 - 4000 * t.par_p2),
    )
}

/// Pressure `var2` quadratic in the temperature.
pub open spec fn pressure_var2_quadratic(t: TrimConstants) -> (int, int, int) {
    (25 * t.par_p6, 10 * (256 * t.par_p5 - 125 * t.par_p6), 15625 * t.par_p6 - 64000 * t.par_p5 + 131072 * t.par_p4)
}

/// Pressure cubic in the compensated pressure code.
pub open spec fn pressure_cubic(t: TrimConstants) -> (int, int, int, int) {
    (t.par_p10 as int, 1024 * t.par_p9, 0x200000000000 + 0x4000000 * t.par_p8, 0x1000000000000 * t.par_p7)
}

/// Whether a quadratic holds the given coefficients.
pub open spec fn quadratic_is(q: Quadratic, v: (int, int, int)) -> bool {
    q.a == v.0 && q.b == v.1 && q.c == v.2
}

/// The coefficients derived from a set of trim constants.
pub open spec fn derived_from(d: DerivedCoefficients, t: TrimConstants) -> bool {
    &&& quadratic_is(d.temperature, temperature_quadratic(t))
    &&& quadratic_is(d.pressure_var1, pressure_var1_quadratic(t))
    &&& quadratic_is(d.pressure_var2, pressure_var2_quadratic(t))
    &&& d.pressure.a == pressure_cubic(t).0
    &&& d.pressure.b == pressure_cubic(t).1
    &&& d.pressure.c == pressure_cubic(t).2
    &&& d.pressure.d == pressure_cubic(t).3
    &&& d.humidity.h1 == 16 * t.par_h1
    &&& d.humidity.h2 == t.par_h2
    &&& d.humidity.h3 == t.par_h3
    &&& d.humidity.h4 == t.par_h4 * t.par_h2
    &&& d.humidity.h5 == t.par_h5 * t.par_h2
    &&& d.humidity.h6 == t.par_h6
    &&& d.humidity.h7 == t.par_h7
}

/// The temperature quadratic of a set of trim constants.
pub fn derive_temperature(t: &TrimConstants) -> (r: Quadratic)
    ensures
        quadratic_is(r, temperature_quadratic(*t)),
{
    let t1 = t.par_t1 as i64;
    let t2 = t.par_t2 as i64;
    let t3 = t.par_t3 as i64;
    assert(-0x800000 < t1 * t3 < 0x800000) by (nonlinear_arith)
        requires 0 <= t1 < 65536, -128 <= t3 < 128;
    assert(-0x80000000 <= t1 * t2 < 0x80000000) by (nonlinear_arith)
        requires 0 <= t1 < 65536, -32768 <= t2 < 32768;
    let t13 = t1 * t3;
    let t12 = t1 * t2;
    assert(-0x8000000000 < t1 * t13 < 0x8000000000) by (nonlinear_arith)
        requires 0 <= t1 < 65536, -0x800000 < t13 < 0x800000;
    let b = t2 * 65536 - t13 * 32;
    let c = t1 * t13 * 256 - t12 * 1048576;
    assert(t1 * t13 * 256 == t.par_t1 * t.par_t1 * t.par_t3 * 256) by (nonlinear_arith)
        requires t13 == t1 * t3, t1 == t.par_t1, t3 == t.par_t3;
    assert(t13 * 32 == t.par_t1 * t.par_t3 * 32) by (nonlinear_arith)
        requires t13 == t1 * t3, t1 == t.par_t1, t3 == t.par_t3;
    Quadratic { a: t3, b, c }
}

/// The pressure `var1` quadratic of a set of trim constants.
pub fn derive_pressure_var1(t: &TrimConstants) -> (r: Quadratic)
    ensures
        quadratic_is(r, pressure_var1_quadratic(*t)),
{
    let p1 = t.par_p1 as i64;
    let p2 = t.par_p2 as i64;
    let p3 = t.par_p3 as i64;
    let inner_b = 16 * p2 - 125 * p3;
    let inner_c = 1073741824 + 15625 * p3 - 4000 * p2;
    assert(-0x10000000 < 25 * p1 * p3 < 0x10000000) by (nonlinear_arith)
        requires 0 <= p1 < 65536, -128 <= p3 < 128;
    assert(-0x100000000000 < 10 * (p1 * inner_b) < 0x100000000000) by (nonlinear_arith)
        requires 0 <= p1 < 65536, -0x100000 < inner_b < 0x100000;
    assert(-0x1000000000000000 < p1 * inner_c < 0x1000000000000000) by (nonlinear_arith)
        requires 0 <= p1 < 65536, -0x80000000 < inner_c < 0x80000000;
    let a = 25 * p1 * p3;
    let b = 10 * (p1 * inner_b);
    let c = p1 * inner_c;
    assert(b == 10 * p1 * inner_b) by (nonlinear_arith)
        requires b == 10 * (p1 * inner_b);
    Quadratic { a, b, c }
}

/// The pressure `var2` quadratic of a set of trim constants.
pub fn derive_pressure_var2(t: &TrimConstants) -> (r: Quadratic)
    ensures
        quadratic_is(r, pressure_var2_quadratic(*t)),
{
    let p4 = t.par_p4 as i64;
    let p5 = t.par_p5 as i64;
    let p6 = t.par_p6 as i64;
    Quadratic {
        a: 25 * p6,
        b: 10 * (256 * p5 - 125 * p6),
        c: 15625 * p6 - 64000 * p5 + 131072 * p4,
    }
}

/// The pressure cubic of a set of trim constants.
pub fn derive_pressure_cubic(t: &TrimConstants) -> (r: Cubic)
    ensures
        r.a == pressure_cubic(*t).0,
        r.b == pressure_cubic(*t).1,
        r.c == pressure_cubic(*t).2,
        r.d == pressure_cubic(*t).3,
{
    Cubic {
        a: t.par_p10 as i64,
        b: 1024 * (t.par_p9 as i64),
        c: 0x200000000000 + 0x4000000 * (t.par_p8 as i64),
        d: 0x1000000000000 * (t.par_p7 as i64),
    }
}

/// The humidity coefficients of a set of trim constants.
pub fn derive_humidity(t: &TrimConstants) -> (r: HumidityCoefficients)
    requires
        t.par_h1 < 4096,
        t.par_h2 < 4096,
    ensures
        r.h1 == 16 * t.par_h1,
        r.h2 == t.par_h2,
        r.h3 == t.par_h3,
        r.h4 == t.par_h4 * t.par_h2,
        r.h5 == t.par_h5 * t.par_h2,
        r.h6 == t.par_h6,
        r.h7 == t.par_h7,
{
    let h2 = t.par_h2 as i64;
    assert(-0x80000 < (t.par_h4 as i64) * h2 < 0x80000) by (nonlinear_arith)
        requires 0 <= h2 < 4096, -128 <= t.par_h4 < 128;
    assert(-0x80000 < (t.par_h5 as i64) * h2 < 0x80000) by (nonlinear_arith)
        requires 0 <= h2 < 4096, -128 <= t.par_h5 < 128;
    HumidityCoefficients {
        h1: 16 * (t.par_h1 as i32),
        h2,
        h3: t.par_h3 as i64,
        h4: (t.par_h4 as i64) * h2,
        h5: (t.par_h5 as i64) * h2,
        h6: t.par_h6 as i64,
        h7: t.par_h7 as i64,
    }
}

/// Whether trim constants are as the registers can hold them: the two
/// packed humidity trims have 12 bits.
pub open spec fn trims_wf(t: TrimConstants) -> bool {
    t.par_h1 < 4096 && t.par_h2 < 4096
}

/// Derives the compensation coefficients from the trim constants, with
/// exact integer arithmetic.
pub fn derive_coefficients(t: &TrimConstants) -> (r: DerivedCoefficients)
    requires
        trims_wf(*t),
    ensures
        derived_from(r, *t),
{
    DerivedCoefficients {
        temperature: derive_temperature(t),
        pressure_var1: derive_pressure_var1(t),
        pressure_var2: derive_pressure_var2(t),
        pressure: derive_pressure_cubic(t),
        humidity: derive_humidity(t),
    }
}

/// Loading calibration is a function of the trim bytes alone: coefficients
/// derived from the same register contents are identical.
pub proof fn lemma_calibration_deterministic(
    a1: Seq<u8>,
    b1: Seq<u8>,
    c1: Seq<u8>,
    a2: Seq<u8>,
    b2: Seq<u8>,
    c2: Seq<u8>,
    d1: DerivedCoefficients,
    d2: DerivedCoefficients,
)
    requires
        a1 == a2,
        b1 == b2,
        c1 == c2,
        derived_from(d1, trims_of(a1, b1, c1)),
        derived_from(d2, trims_of(a2, b2, c2)),
    ensures
        d1 == d2,
{
    assert(d1.temperature == d2.temperature);
    assert(d1.pressure_var1 == d2.pressure_var1);
    assert(d1.pressure_var2 == d2.pressure_var2);
    assert(d1.pressure == d2.pressure);
    assert(d1.humidity == d2.humidity);
}

/// The temperature quadratic is the vendor formula multiplied out. With
/// `var1 = (adc / 2^14 - t1 / 2^10) * t2`,
/// `var2 = (adc / 2^17 - t1 / 2^13)^2 * t3 * 16` and
/// `t_fine = var1 + var2`, the quadratic at `adc` is `t_fine * 2^30`; both
/// sides are stated times 2^4, where they are integers.
pub proof fn lemma_temperature_matches_vendor(t: TrimConstants, adc: int)
    ensures
        ({
            let (a, b, c) = temperature_quadratic(t);
            16 * (a * adc * adc + b * adc + c) == t.par_t2 * (adc * 0x100000 - t.par_t1 * 0x1000000)
                + 16 * t.par_t3 * (adc - 16 * t.par_t1) * (adc - 16 * t.par_t1)
        }),
{
    let (a, b, c) = temperature_quadratic(t);
    let t1 = t.par_t1 as int;
    let t2 = t.par_t2 as int;
    let t3 = t.par_t3 as int;
    let e = adc - 16 * t1;
    assert(16 * t3 * e * e == 16 * (t3 * (adc * adc)) - 512 * ((t1 * t3) * adc) + 4096 * (t1 * t1 * t3))
        by (nonlinear_arith)
        requires e == adc - 16 * t1;
    assert(t2 * (adc * 0x100000 - t1 * 0x1000000) == 0x100000 * (t2 * adc) - 0x1000000 * (t1 * t2))
        by (nonlinear_arith);
    assert(a * adc * adc == t3 * (adc * adc)) by (nonlinear_arith)
        requires a == t3;
    assert(b * adc == 65536 * (t2 * adc) - 32 * ((t1 * t3) * adc)) by (nonlinear_arith)
        requires b == t2 * 65536 - t1 * t3 * 32;
    assert(c == 256 * (t1 * t1 * t3) - 1048576 * (t1 * t2)) by (nonlinear_arith)
        requires c == t1 * t1 * t3 * 256 - t1 * t2 * 1048576;
}

/// The pressure `var2` quadratic is the vendor formula multiplied out. With
/// the temperature `x`, `v = 5120 * x / 2 - 64000` and
/// `var2 = ((v^2 * p6 / 2^17 + v * p5 * 2) / 4 + p4 * 2^16) / 2^12`, the
/// quadratic at `x` over `PRESSURE_VAR2_SCALE` is `var2`; both sides are
/// stated times 2^31.
pub proof fn lemma_pressure_var2_matches_vendor(t: TrimConstants, x: int)
    ensures
        ({
            let (a, b, c) = pressure_var2_quadratic(t);
            let v = 2560 * x - 64000;
            0x40000 * (a * x * x + b * x + c) == v * v * t.par_p6 + 0x40000 * v * t.par_p5 + 0x800000000 * t.par_p4
        }),
{
    let (a, b, c) = pressure_var2_quadratic(t);
    let v = 2560 * x - 64000;
    let p4 = t.par_p4 as int;
    let p5 = t.par_p5 as int;
    let p6 = t.par_p6 as int;
    assert(0x40000 * (a * x * x + b * x + c) == v * v * p6 + 0x40000 * v * p5 + 0x800000000 * p4)
        by (nonlinear_arith)
        requires
            a == 25 * p6,
            b == 10 * (256 * p5 - 125 * p6),
            c == 15625 * p6 - 64000 * p5 + 131072 * p4,
            v == 2560 * x - 64000;
}

/// The pressure `var1` quadratic is the vendor formula multiplied out. With
/// the temperature `x`, `v = 5120 * x / 2 - 64000`,
/// `var1 = (1 + ((p3 * v^2 / 2^14 + p2 * v) / 2^19) / 2^15) * p1`, the
/// quadratic at `x` over `PRESSURE_VAR1_SCALE` is `var1 / 6250`; both sides
/// are stated times 2^48.
pub proof fn lemma_pressure_var1_matches_vendor(t: TrimConstants, x: int)
    ensures
        ({
            let (a, b, c) = pressure_var1_quadratic(t);
            let v = 2560 * x - 64000;
            0x40000 * (a * x * x + b * x + c) == t.par_p1 * 0x1000000000000 + t.par_p1 * t.par_p3 * v * v
                + t.par_p1 * t.par_p2 * v * 0x4000
        }),
{
    let (a, b, c) = pressure_var1_quadratic(t);
    let v = 2560 * x - 64000;
    let p1 = t.par_p1 as int;
    let p2 = t.par_p2 as int;
    let p3 = t.par_p3 as int;
    assert(0x40000 * (a * x * x + b * x + c) == p1 * 0x1000000000000 + p1 * p3 * v * v
        + p1 * p2 * v * 0x4000) by (nonlinear_arith)
        requires
            a == 25 * p1 * p3,
            b == 10 * p1 * (16 * p2 - 125 * p3),
            c == p1 * (1073741824 + 15625 * p3 - 4000 * p2),
            v == 2560 * x - 64000;
}

/// The pressure cubic is the vendor formula multiplied out. With the
/// compensated pressure code `x`,
/// `pressure = x + (p9 * x^2 / 2^31 + x * p8 / 2^15 + (x / 2^8)^3 * p10 / 2^17 + p7 * 2^7) / 2^4`
/// in pascal, the cubic at `x` over `PRESSURE_CUBIC_SCALE` is `pressure / 100`
/// in millibar: the cubic's value is `pressure * 2^45`, stated here with
/// the divisions multiplied out.
pub proof fn lemma_pressure_cubic_matches_vendor(t: TrimConstants, x: int)
    ensures
        ({
            let (a, b, c, d) = pressure_cubic(t);
            a * x * x * x + b * x * x + c * x + d == 0x200000000000 * x + 0x400 * t.par_p9 * x * x
                + 0x4000000 * t.par_p8 * x + t.par_p10 * x * x * x + 0x1000000000000 * t.par_p7
        }),
{
    let (a, b, c, d) = pressure_cubic(t);
    let p7 = t.par_p7 as int;
    let p8 = t.par_p8 as int;
    let p9 = t.par_p9 as int;
    let p10 = t.par_p10 as int;
    assert(a * x * x * x + b * x * x + c * x + d == 0x200000000000 * x + 0x400 * p9 * x * x
        + 0x4000000 * p8 * x + p10 * x * x * x + 0x1000000000000 * p7) by (nonlinear_arith)
        requires
            a == p10,
            b == 1024 * p9,
            c == 0x200000000000 + 0x4000000 * p8,
            d == 0x1000000000000 * p7;
}

} // verus!
