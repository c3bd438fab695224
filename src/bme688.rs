//! The BME688 driver state: calibration cache, oversampling settings,
//! forced-mode acquisition cycle and the temperature-dependent terms.
//!
//! Bus transfers stay with the caller: the driver is handed the bytes that
//! were read and hands back the register writes to perform.
use vstd::prelude::*;
use crate::calibration::{
    decode_trims, derive_coefficients, derived_from, trims_of, DerivedCoefficients, TrimConstants,
};
use crate::compensation::{
    coefficients_bounded, humidity_var3, humidity_var3_at, lemma_derived_bounded, pressure_var2,
    pressure_var2_at, temperature_at, temperature_numerator, lemma_pressure_var1_factors,
    pressure_var1_factor, pressure_var1_numerator, pressure_var1_vanishes,
};
use crate::error::WeatherError;
use crate::registers::{
    adc20_of, read_adc20, read_u16_be, u16_of, CTRL_HUM, CTRL_MEAS, FIELD_DATA_LEN,
    TRIM_BLOCK_A_LEN, TRIM_BLOCK_B_LEN, TRIM_BLOCK_C_LEN,
};

verus! {

/// Where the driver stands in the forced-mode acquisition cycle.
#[derive(Clone, Copy, Debug, PartialEq, Eq, Structural)]
pub enum Phase {
    /// No measurement is in flight.
    Idle,
    /// A forced measurement was started and has not been seen to complete.
    Triggered,
    /// The measurement completed; its sample may be read once.
    Ready,
}

/// Temperature-dependent terms that are integers: pressure `var2` and
/// humidity `var3`, for the cached temperature.
#[derive(Clone, Copy, Debug, PartialEq, Eq, Structural)]
pub struct DependentTerms {
    pub pressure_var2: i64,
    pub humidity_var3: i32,
}

/// The integer results of one compensation cycle. The temperature is a
/// numerator over `TEMPERATURE_SCALE`; the pressure and humidity offsets are
/// what the pressure cubic and the humidity blend take as input:
/// `2^20 - adc - var2` and `adc - var3`.
#[derive(Clone, Copy, Debug, PartialEq, Eq, Structural)]
pub struct SampleTerms {
    pub temperature: i64,
    pub pressure_offset: i64,
    pub humidity_offset: i32,
}

/// The register code of an oversampling factor, if it is one of
/// 1, 2, 4, 8, 16.
pub open spec fn oversampling_code(x: u8) -> Option<u8> {
    if x == 1 {
        Some(1u8)
    } else if x == 2 {
        Some(2u8)
    } else if x == 4 {
        Some(3u8)
    } else if x == 8 {
        Some(4u8)
    } else if x == 16 {
        Some(5u8)
    } else {
        None
    }
}

/// Maps an oversampling factor to its register code.
pub fn calc_oversampling(reqd: u8) -> (r: Result<u8, WeatherError>)
    ensures
        match oversampling_code(reqd) {
            Some(c) => r == Ok::<u8, WeatherError>(c),
            None => r == Err::<u8, WeatherError>(WeatherError::InvalidOversampling(reqd)),
        },
{
    if reqd == 1 {
        Ok(1)
    } else if reqd == 2 {
        Ok(2)
    } else if reqd == 4 {
        Ok(3)
    } else if reqd == 8 {
        Ok(4)
    } else if reqd == 16 {
        Ok(5)
    } else {
        Err(WeatherError::InvalidOversampling(reqd))
    }
}

/// The temperature / pressure control byte: temperature code in bits 5..7,
/// pressure code in bits 2..4, mode bits clear.
pub open spec fn ctrl_meas_of(temp_code: u8, pres_code: u8) -> int {
    temp_code * 32 + pres_code * 4
}

/// The terms that belong to the temperature numerator `n`.
pub open spec fn terms_at(d: DerivedCoefficients, n: int) -> DependentTerms {
    DependentTerms {
        pressure_var2: pressure_var2_at(d, n) as i64,
        humidity_var3: humidity_var3_at(d.humidity, n) as i32,
    }
}

/// The recompute counter after one more recomputation (it wraps).
pub open spec fn bump(n: u64) -> u64 {
    if n < u64::MAX {
        (n + 1) as u64
    } else {
        0
    }
}

/// Driver state of one BME688.
pub struct Bme688 {
    hum_oversampling: u8,
    temp_oversampling: u8,
    pres_oversampling: u8,
    trims: Option<TrimConstants>,
    coefficients: Option<DerivedCoefficients>,
    phase: Phase,
    temperature: Option<i64>,
    terms: DependentTerms,
    recomputes: u64,
}

impl Bme688 {
    /// The coefficients, once calibration has been loaded.
    pub closed spec fn coefficients_spec(&self) -> Option<DerivedCoefficients> {
        self.coefficients
    }

    /// Where the driver stands in the acquisition cycle.
    pub closed spec fn phase_spec(&self) -> Phase {
        self.phase
    }

    /// The oversampling codes for humidity, temperature and pressure.
    pub closed spec fn oversampling_spec(&self) -> (u8, u8, u8) {
        (self.hum_oversampling, self.temp_oversampling, self.pres_oversampling)
    }

    /// The temperature numerator that the dependent terms belong to, if any.
    pub closed spec fn temperature_spec(&self) -> Option<i64> {
        self.temperature
    }

    /// The cached temperature-dependent terms.
    pub closed spec fn terms_spec(&self) -> DependentTerms {
        self.terms
    }

    /// How many times the temperature-dependent terms were recomputed.
    pub closed spec fn recomputes_spec(&self) -> u64 {
        self.recomputes
    }

    /// Well-formedness: oversampling codes are register codes, the
    /// coefficients are derived from the kept trim constants and keep the
    /// ranges of derived coefficients, and the cached terms belong to the
    /// cached temperature.
    pub closed spec fn wf(&self) -> bool {
        &&& self.hum_oversampling <= 5
        &&& self.temp_oversampling <= 5
        &&& self.pres_oversampling <= 5
        &&& self.coefficients is None ==> self.temperature is None
        &&& self.coefficients is None ==> self.phase == Phase::Idle
        &&& self.coefficients matches Some(d) ==> coefficients_bounded(d)
        &&& self.coefficients matches Some(d) ==> (self.trims matches Some(t) && derived_from(d, t))
        &&& self.temperature matches Some(n) ==> {
            &&& -0x40000000000000 < n < 0x40000000000000
            &&& self.terms == terms_at(self.coefficients.unwrap(), n as int)
            &&& -0x100000000 < self.terms.pressure_var2 < 0x100000000
            &&& -0x100000 < self.terms.humidity_var3 < 0x200000
        }
    }

    /// `after` is `before` once the raw temperature code `adc` has been
    /// compensated: the new temperature is cached with its terms, which are
    /// recomputed (and counted) only when the temperature changed.
    pub open spec fn temperature_compensated(before: Bme688, after: Bme688, adc: int) -> bool {
        &&& before.coefficients_spec() is Some
        &&& {
            let d = before.coefficients_spec().unwrap();
            let n = temperature_numerator(d, adc);
            &&& after.temperature_spec() == Some(n as i64)
            &&& after.terms_spec() == terms_at(d, n)
            &&& if before.temperature_spec() == Some(n as i64) {
                &&& after.terms_spec() == before.terms_spec()
                &&& after.recomputes_spec() == before.recomputes_spec()
            } else {
                after.recomputes_spec() == bump(before.recomputes_spec())
            }
        }
        &&& after.coefficients_spec() == before.coefficients_spec()
        &&& after.phase_spec() == before.phase_spec()
        &&& after.oversampling_spec() == before.oversampling_spec()
    }

    /// A driver with no calibration, oversampling codes 0 (measurement
    /// skipped) and no measurement in flight.
    pub fn new() -> (r: Self)
        ensures
            r.wf(),
            r.coefficients_spec() is None,
            r.phase_spec() == Phase::Idle,
            r.oversampling_spec() == (0u8, 0u8, 0u8),
            r.temperature_spec() is None,
            r.terms_spec() == (DependentTerms { pressure_var2: 0, humidity_var3: 0 }),
            r.recomputes_spec() == 0,
    {
        Bme688 {
            hum_oversampling: 0,
            temp_oversampling: 0,
            pres_oversampling: 0,
            trims: None,
            coefficients: None,
            phase: Phase::Idle,
            temperature: None,
            terms: DependentTerms { pressure_var2: 0, humidity_var3: 0 },
            recomputes: 0,
        }
    }

    /// Reads the factory trim constants from the three trim blocks and
    /// caches the coefficients derived from them. The cached temperature is
    /// dropped, since its terms belong to the old coefficients.
    pub fn cache_params(&mut self, a: &[u8], b: &[u8], c: &[u8])
        requires
            old(self).wf(),
            a@.len() == TRIM_BLOCK_A_LEN,
            b@.len() == TRIM_BLOCK_B_LEN,
            c@.len() == TRIM_BLOCK_C_LEN,
        ensures
            final(self).wf(),
            final(self).coefficients_spec() matches Some(d) && derived_from(d, trims_of(a@, b@, c@)),
            final(self).temperature_spec() is None,
            final(self).phase_spec() == old(self).phase_spec(),
            final(self).oversampling_spec() == old(self).oversampling_spec(),
            final(self).recomputes_spec() == old(self).recomputes_spec(),
    {
        let trims = decode_trims(a, b, c);
        let d = derive_coefficients(&trims);
        proof {
            lemma_derived_bounded(d, trims);
        }
        self.trims = Some(trims);
        self.coefficients = Some(d);
        self.temperature = None;
    }

    /// Sets the humidity oversampling factor; only 1, 2, 4, 8 and 16 are
    /// accepted, anything else leaves the driver unchanged.
    pub fn set_humdity_oversampling(&mut self, oversampling: u8) -> (r: Result<(), WeatherError>)
        requires
            old(self).wf(),
        ensures
            final(self).wf(),
            match oversampling_code(oversampling) {
                Some(code) => {
                    &&& r is Ok
                    &&& final(self).oversampling_spec() == (code, old(self).oversampling_spec().1, old(self).oversampling_spec().2)
                    &&& final(self).coefficients_spec() == old(self).coefficients_spec()
                    &&& final(self).phase_spec() == old(self).phase_spec()
                    &&& final(self).temperature_spec() == old(self).temperature_spec()
                    &&& final(self).terms_spec() == old(self).terms_spec()
                    &&& final(self).recomputes_spec() == old(self).recomputes_spec()
                },
                None => {
                    &&& r == Err::<(), WeatherError>(WeatherError::InvalidOversampling(oversampling))
                    &&& *final(self) == *old(self)
                },
            },
    {
        let code = calc_oversampling(oversampling)?;
        self.hum_oversampling = code;
        Ok(())
    }

    /// Sets the temperature oversampling factor; only 1, 2, 4, 8 and 16 are
    /// accepted, anything else leaves the driver unchanged.
    pub fn set_temperature_oversampling(&mut self, oversampling: u8) -> (r: Result<(), WeatherError>)
        requires
            old(self).wf(),
        ensures
            final(self).wf(),
            match oversampling_code(oversampling) {
                Some(code) => {
                    &&& r is Ok
                    &&& final(self).oversampling_spec() == (old(self).oversampling_spec().0, code, old(self).oversampling_spec().2)
                    &&& final(self).coefficients_spec() == old(self).coefficients_spec()
                    &&& final(self).phase_spec() == old(self).phase_spec()
                    &&& final(self).temperature_spec() == old(self).temperature_spec()
                    &&& final(self).terms_spec() == old(self).terms_spec()
                    &&& final(self).recomputes_spec() == old(self).recomputes_spec()
                },
                None => {
                    &&& r == Err::<(), WeatherError>(WeatherError::InvalidOversampling(oversampling))
                    &&& *final(self) == *old(self)
                },
            },
    {
        let code = calc_oversampling(oversampling)?;
        self.temp_oversampling = code;
        Ok(())
    }

    /// Sets the pressure oversampling factor; only 1, 2, 4, 8 and 16 are
    /// accepted, anything else leaves the driver unchanged.
    pub fn set_pressure_oversampling(&mut self, oversampling: u8) -> (r: Result<(), WeatherError>)
        requires
            old(self).wf(),
        ensures
            final(self).wf(),
            match oversampling_code(oversampling) {
                Some(code) => {
                    &&& r is Ok
                    &&& final(self).oversampling_spec() == (old(self).oversampling_spec().0, old(self).oversampling_spec().1, code)
                    &&& final(self).coefficients_spec() == old(self).coefficients_spec()
                    &&& final(self).phase_spec() == old(self).phase_spec()
                    &&& final(self).temperature_spec() == old(self).temperature_spec()
                    &&& final(self).terms_spec() == old(self).terms_spec()
                    &&& final(self).recomputes_spec() == old(self).recomputes_spec()
                },
                None => {
                    &&& r == Err::<(), WeatherError>(WeatherError::InvalidOversampling(oversampling))
                    &&& *final(self) == *old(self)
                },
            },
    {
        let code = calc_oversampling(oversampling)?;
        self.pres_oversampling = code;
        Ok(())
    }

    /// Starts a forced measurement: the register writes, in order, that
    /// commit the oversampling settings and set the forced-mode bit.
    /// Refused before calibration has been loaded.
    pub fn one_shot(&mut self) -> (r: Result<Vec<(u8, u8)>, WeatherError>)
        requires
            old(self).wf(),
        ensures
            final(self).wf(),
            old(self).coefficients_spec() is None ==> {
                &&& r == Err::<Vec<(u8, u8)>, WeatherError>(WeatherError::NotCalibrated)
                &&& *final(self) == *old(self)
            },
            old(self).coefficients_spec() is Some ==> {
                let (h, t, p) = old(self).oversampling_spec();
                &&& r matches Ok(w) && w@ == seq![
                    (CTRL_HUM, h),
                    (CTRL_MEAS, ctrl_meas_of(t, p) as u8),
                    (CTRL_MEAS, (ctrl_meas_of(t, p) + 1) as u8),
                ]
                &&& final(self).phase_spec() == Phase::Triggered
                &&& final(self).coefficients_spec() == old(self).coefficients_spec()
                &&& final(self).oversampling_spec() == old(self).oversampling_spec()
                &&& final(self).temperature_spec() == old(self).temperature_spec()
                &&& final(self).terms_spec() == old(self).terms_spec()
                &&& final(self).recomputes_spec() == old(self).recomputes_spec()
            },
    {
        if self.coefficients.is_none() {
            return Err(WeatherError::NotCalibrated);
        }
        let meas = self.temp_oversampling * 32 + self.pres_oversampling * 4;
        let mut writes: Vec<(u8, u8)> = Vec::new();
        writes.push((CTRL_HUM, self.hum_oversampling));
        writes.push((CTRL_MEAS, meas));
        writes.push((CTRL_MEAS, meas + 1));
        self.phase = Phase::Triggered;
        Ok(writes)
    }

    /// Takes the value read from the control register and says whether a
    /// measurement is complete. Before a measurement was started the answer
    /// is `false`; once one has completed it stays `true` until its sample
    /// is read.
    pub fn is_ready(&mut self, ctrl_meas: u8) -> (r: bool)
        requires
            old(self).wf(),
        ensures
            final(self).wf(),
            old(self).phase_spec() == Phase::Idle ==> !r,
            old(self).phase_spec() == Phase::Triggered ==> r == (ctrl_meas % 4 == 0),
            old(self).phase_spec() == Phase::Ready ==> r,
            final(self).phase_spec() == (if r { Phase::Ready } else { old(self).phase_spec() }),
            final(self).coefficients_spec() == old(self).coefficients_spec(),
            final(self).oversampling_spec() == old(self).oversampling_spec(),
            final(self).temperature_spec() == old(self).temperature_spec(),
            final(self).terms_spec() == old(self).terms_spec(),
            final(self).recomputes_spec() == old(self).recomputes_spec(),
    {
        match self.phase {
            Phase::Idle => false,
            Phase::Ready => true,
            Phase::Triggered => {
                if ctrl_meas % 4 == 0 {
                    self.phase = Phase::Ready;
                    true
                } else {
                    false
                }
            },
        }
    }

    /// Compensates a raw temperature code: the temperature numerator over
    /// `TEMPERATURE_SCALE`. When it differs from the cached temperature the
    /// dependent terms are recomputed, once; otherwise they are kept.
    pub fn compensate_temperature(&mut self, adc: u32) -> (r: Result<i64, WeatherError>)
        requires
            old(self).wf(),
            adc < 0x100000,
        ensures
            final(self).wf(),
            old(self).coefficients_spec() is None ==> {
                &&& r == Err::<i64, WeatherError>(WeatherError::NotCalibrated)
                &&& *final(self) == *old(self)
            },
            old(self).coefficients_spec() matches Some(d) ==> {
                &&& r == Ok::<i64, WeatherError>(temperature_numerator(d, adc as int) as i64)
                &&& Self::temperature_compensated(*old(self), *final(self), adc as int)
            },
    {
        let d = match self.coefficients {
            Some(d) => d,
            None => return Err(WeatherError::NotCalibrated),
        };
        let n = temperature_at(&d, adc);
        let same = match self.temperature {
            Some(m) => m == n,
            None => false,
        };
        if !same {
            self.terms = DependentTerms {
                pressure_var2: pressure_var2(&d, n),
                humidity_var3: humidity_var3(&d, n),
            };
            self.temperature = Some(n);
            self.recomputes = if self.recomputes < u64::MAX {
                self.recomputes + 1
            } else {
                0
            };
        }
        Ok(n)
    }

    /// The pressure cubic's input offset `2^20 - adc - var2` for a raw
    /// pressure code, with `var2` of the cached temperature.
    pub fn pressure_offset(&self, adc: u32) -> (r: Result<i64, WeatherError>)
        requires
            self.wf(),
            adc < 0x100000,
        ensures
            self.temperature_spec() is None ==> r == Err::<i64, WeatherError>(WeatherError::NoTemperature),
            self.temperature_spec() is Some ==> r == Ok::<i64, WeatherError>(
                (0x100000 - adc - self.terms_spec().pressure_var2) as i64,
            ),
    {
        if self.temperature.is_none() {
            return Err(WeatherError::NoTemperature);
        }
        Ok(0x100000 - adc as i64 - self.terms.pressure_var2)
    }

    /// The humidity blend's input offset `adc - var3` for a raw humidity
    /// code, with `var3` of the cached temperature.
    pub fn humidity_offset(&self, adc: u16) -> (r: Result<i32, WeatherError>)
        requires
            self.wf(),
        ensures
            self.temperature_spec() is None ==> r == Err::<i32, WeatherError>(WeatherError::NoTemperature),
            self.temperature_spec() is Some ==> r == Ok::<i32, WeatherError>(
                (adc - self.terms_spec().humidity_var3) as i32,
            ),
    {
        if self.temperature.is_none() {
            return Err(WeatherError::NoTemperature);
        }
        Ok(adc as i32 - self.terms.humidity_var3)
    }

    /// Reads the sample of a completed measurement from the field's ADC
    /// bytes (pressure, temperature and humidity codes, big-endian), and
    /// ends the acquisition cycle. Refused before calibration, unless a
    /// measurement is ready, and when pressure `var1` (the divisor of the
    /// pressure formula) vanishes at the measured temperature; a refused
    /// call changes nothing.
    pub fn sample(&mut self, data: &[u8]) -> (r: Result<SampleTerms, WeatherError>)
        requires
            old(self).wf(),
            data@.len() == FIELD_DATA_LEN,
        ensures
            final(self).wf(),
            old(self).coefficients_spec() is None ==> {
                &&& r == Err::<SampleTerms, WeatherError>(WeatherError::NotCalibrated)
                &&& *final(self) == *old(self)
            },
            old(self).coefficients_spec() is Some && old(self).phase_spec() != Phase::Ready ==> {
                &&& r == Err::<SampleTerms, WeatherError>(WeatherError::NotReady)
                &&& *final(self) == *old(self)
            },
            old(self).coefficients_spec() is Some && old(self).phase_spec() == Phase::Ready ==> {
                let d = old(self).coefficients_spec().unwrap();
                let n = temperature_numerator(d, adc20_of(data[3], data[4], data[5]));
                let terms = terms_at(d, n);
                if pressure_var1_numerator(d, n) == 0 {
                    &&& r == Err::<SampleTerms, WeatherError>(WeatherError::NotCalibrated)
                    &&& *final(self) == *old(self)
                } else {
                    &&& r == Ok::<SampleTerms, WeatherError>(SampleTerms {
                        temperature: n as i64,
                        pressure_offset: (0x100000 - adc20_of(data[0], data[1], data[2]) - terms.pressure_var2) as i64,
                        humidity_offset: (u16_of(data[6], data[7]) - terms.humidity_var3) as i32,
                    })
                    &&& final(self).phase_spec() == Phase::Idle
                    &&& final(self).temperature_spec() == Some(n as i64)
                    &&& final(self).terms_spec() == terms
                    &&& if old(self).temperature_spec() == Some(n as i64) {
                        final(self).recomputes_spec() == old(self).recomputes_spec()
                    } else {
                        final(self).recomputes_spec() == bump(old(self).recomputes_spec())
                    }
                    &&& final(self).coefficients_spec() == old(self).coefficients_spec()
                    &&& final(self).oversampling_spec() == old(self).oversampling_spec()
                }
            },
    {
        let (d, t) = match (self.coefficients, self.trims) {
            (Some(d), Some(t)) => (d, t),
            _ => return Err(WeatherError::NotCalibrated),
        };
        if self.phase != Phase::Ready {
            return Err(WeatherError::NotReady);
        }
        let press_adc = read_adc20(data[0], data[1], data[2]);
        let temp_adc = read_adc20(data[3], data[4], data[5]);
        let humd_adc = read_u16_be(data[6], data[7]);
        let n = temperature_at(&d, temp_adc);
        proof {
            lemma_pressure_var1_factors(d, t, n as int);
            assert(25 * t.par_p1 * pressure_var1_factor(t, n as int) == 0 <==> (t.par_p1 == 0
                || pressure_var1_factor(t, n as int) == 0)) by (nonlinear_arith);
        }
        if pressure_var1_vanishes(&t, n) {
            return Err(WeatherError::NotCalibrated);
        }
        let temperature = match self.compensate_temperature(temp_adc) {
            Ok(n) => n,
            Err(e) => return Err(e),
        };
        let pressure_offset = match self.pressure_offset(press_adc) {
            Ok(v) => v,
            Err(e) => return Err(e),
        };
        let humidity_offset = match self.humidity_offset(humd_adc) {
            Ok(v) => v,
            Err(e) => return Err(e),
        };
        self.phase = Phase::Idle;
        Ok(SampleTerms { temperature, pressure_offset, humidity_offset })
    }

    /// The cached coefficients, once calibration has been loaded.
    pub fn coefficients(&self) -> (r: Option<DerivedCoefficients>)
        ensures
            r == self.coefficients_spec(),
    {
        self.coefficients
    }

    /// Where the driver stands in the acquisition cycle.
    pub fn phase(&self) -> (r: Phase)
        ensures
            r == self.phase_spec(),
    {
        self.phase
    }

    /// The oversampling codes for humidity, temperature and pressure.
    pub fn oversampling(&self) -> (r: (u8, u8, u8))
        requires
            self.wf(),
        ensures
            r == self.oversampling_spec(),
            r.0 <= 5 && r.1 <= 5 && r.2 <= 5,
    {
        (self.hum_oversampling, self.temp_oversampling, self.pres_oversampling)
    }

    /// The cached temperature numerator, if a temperature was compensated
    /// since calibration was loaded.
    pub fn temperature(&self) -> (r: Option<i64>)
        ensures
            r == self.temperature_spec(),
    {
        self.temperature
    }

    /// The cached temperature-dependent terms.
    pub fn terms(&self) -> (r: DependentTerms)
        ensures
            r == self.terms_spec(),
    {
        self.terms
    }

    /// How many times the temperature-dependent terms were recomputed.
    pub fn recomputes(&self) -> (r: u64)
        ensures
            r == self.recomputes_spec(),
    {
        self.recomputes
    }
}

/// Compensating the same raw temperature code twice recomputes the
/// temperature-dependent terms at most once: the second compensation finds
/// its temperature cached, and keeps the terms and the recompute count.
pub proof fn lemma_repeat_keeps_terms(s0: Bme688, s1: Bme688, s2: Bme688, adc: int)
    requires
        Bme688::temperature_compensated(s0, s1, adc),
        Bme688::temperature_compensated(s1, s2, adc),
    ensures
        s2.terms_spec() == s1.terms_spec(),
        s2.recomputes_spec() == s1.recomputes_spec(),
        s2.temperature_spec() == s1.temperature_spec(),
{
}

/// A compensation whose temperature differs from the cached one recomputes
/// the temperature-dependent terms exactly once: the count goes up by one
/// and the terms are those of the new temperature.
pub proof fn lemma_new_temperature_recomputes_once(s0: Bme688, s1: Bme688, adc: int)
    requires
        Bme688::temperature_compensated(s0, s1, adc),
        s0.temperature_spec() != Some(temperature_numerator(s0.coefficients_spec().unwrap(), adc) as i64),
    ensures
        s1.recomputes_spec() == bump(s0.recomputes_spec()),
        s1.recomputes_spec() != s0.recomputes_spec(),
        s1.terms_spec() == terms_at(
            s0.coefficients_spec().unwrap(),
            temperature_numerator(s0.coefficients_spec().unwrap(), adc),
        ),
{
}

} // verus!
