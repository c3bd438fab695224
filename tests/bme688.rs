use weather::bme688::{calc_oversampling, Bme688, Phase, SampleTerms};
use weather::calibration::{
    decode_trims, derive_coefficients, TrimConstants, PRESSURE_CUBIC_SCALE,
    PRESSURE_OFFSET_MBAR, PRESSURE_VAR1_SCALE, TEMPERATURE_SCALE,
};
use weather::error::WeatherError;
use weather::registers::{
    read_adc20, read_i16_le, read_i8, read_u16_be, read_u16_le, CTRL_HUM, CTRL_MEAS,
};

const BLOCK_A: [u8; 23] = [
    0x90, 0x65, 0x03, 0x00, 0xa0, 0x8c, 0xc4, 0xd7, 0x58, 0x00, 0x58, 0x1b, 0x9c, 0xff, 0x28,
    0x1e, 0x00, 0x00, 0x30, 0xf8, 0x48, 0xf4, 0x1e,
];
const BLOCK_B: [u8; 14] = [
    0x3e, 0x80, 0x32, 0x00, 0x2d, 0x14, 0x78, 0x9c, 0x90, 0x65, 0xd8, 0xdc, 0xce, 0x12,
];
const BLOCK_C: [u8; 3] = [40, 0, 0x15];

/// The ADC bytes of one field: pressure, temperature (20 bits each) and
/// humidity (16 bits), big-endian.
fn field_bytes(press: u32, temp: u32, humd: u16) -> [u8; 8] {
    [
        (press >> 12) as u8,
        (press >> 4) as u8,
        ((press & 0xf) << 4) as u8,
        (temp >> 12) as u8,
        (temp >> 4) as u8,
        ((temp & 0xf) << 4) as u8,
        (humd >> 8) as u8,
        humd as u8,
    ]
}

fn calibrated() -> Bme688 {
    let mut sensor = Bme688::new();
    sensor.cache_params(&BLOCK_A, &BLOCK_B, &BLOCK_C);
    sensor
}

fn measure(sensor: &mut Bme688, press: u32, temp: u32, humd: u16) -> SampleTerms {
    sensor.one_shot().unwrap();
    assert!(sensor.is_ready(0x00));
    sensor.sample(&field_bytes(press, temp, humd)).unwrap()
}

#[test]
fn register_decoding() {
    assert_eq!(read_i8(0x7f), 127);
    assert_eq!(read_i8(0x80), -128);
    assert_eq!(read_i8(0xff), -1);
    assert_eq!(read_u16_le(0x34, 0x12), 0x1234);
    assert_eq!(read_u16_be(0x12, 0x34), 0x1234);
    assert_eq!(read_i16_le(0x00, 0x80), -32768);
    assert_eq!(read_i16_le(0xc4, 0xd7), -10300);
    assert_eq!(read_adc20(0x66, 0x71, 0x00), 419600);
    assert_eq!(read_adc20(0xff, 0xff, 0xff), 0xfffff);
}

#[test]
fn trims_decode_from_blocks() {
    let t = decode_trims(&BLOCK_A, &BLOCK_B, &BLOCK_C);
    let expected = TrimConstants {
        par_t1: 26000, par_t2: 26000, par_t3: 3,
        par_p1: 36000, par_p2: -10300, par_p3: 88, par_p4: 7000, par_p5: -100, par_p6: 30, par_p7: 40,
        par_p8: -2000, par_p9: -3000, par_p10: 30,
        par_h1: 800, par_h2: 1000, par_h3: 0, par_h4: 45, par_h5: 20, par_h6: 120, par_h7: -100,
        par_g1: -50, par_g2: -9000, par_g3: 18,
        res_heat_range: 1, res_heat_val: 40,
    };
    assert_eq!(t, expected);
}

#[test]
fn coefficients_are_exact() {
    let d = derive_coefficients(&decode_trims(&BLOCK_A, &BLOCK_B, &BLOCK_C));
    assert_eq!((d.temperature.a, d.temperature.b, d.temperature.c), (3, 1701440000, -708318208000000));
    assert_eq!(
        (d.pressure_var1.a, d.pressure_var1.b, d.pressure_var1.c),
        (79200000, -63288000000, 40187405664000)
    );
    assert_eq!((d.pressure_var2.a, d.pressure_var2.b, d.pressure_var2.c), (750, -293500, 924372750));
    assert_eq!(
        (d.pressure.a, d.pressure.b, d.pressure.c, d.pressure.d),
        (30, -3072000, 35050154360832, 11258999068426240)
    );
    let h = d.humidity;
    assert_eq!((h.h1, h.h2, h.h3, h.h4, h.h5, h.h6, h.h7), (12800, 1000, 0, 45000, 20000, 120, -100));
}

#[test]
fn calibration_is_deterministic() {
    let first = calibrated();
    let second = calibrated();
    assert!(first.coefficients().is_some());
    assert_eq!(first.coefficients(), second.coefficients());
    let mut again = calibrated();
    again.cache_params(&BLOCK_A, &BLOCK_B, &BLOCK_C);
    assert_eq!(first.coefficients(), again.coefficients());
}

#[test]
fn zero_adc_gives_constant_term() {
    let mut sensor = calibrated();
    let c = sensor.coefficients().unwrap().temperature.c;
    assert_eq!(sensor.compensate_temperature(0), Ok(c));
    assert_eq!(c, -708318208000000);
}

#[test]
fn terms_recomputed_only_on_change() {
    let mut sensor = calibrated();
    assert_eq!(sensor.recomputes(), 0);
    let first = sensor.compensate_temperature(419616).unwrap();
    assert_eq!(sensor.recomputes(), 1);
    let terms = sensor.terms();
    let second = sensor.compensate_temperature(419616).unwrap();
    assert_eq!(first, second);
    assert_eq!(sensor.recomputes(), 1);
    assert_eq!(sensor.terms(), terms);
    sensor.compensate_temperature(500000).unwrap();
    assert_eq!(sensor.recomputes(), 2);
    assert_eq!(sensor.terms().pressure_var2, 111967);
}

#[test]
fn oversampling_rejects_other_factors() {
    let mut sensor = Bme688::new();
    sensor.set_humdity_oversampling(16).unwrap();
    sensor.set_temperature_oversampling(2).unwrap();
    sensor.set_pressure_oversampling(4).unwrap();
    assert_eq!(sensor.oversampling(), (5, 2, 3));
    for x in [0u8, 3, 5, 6, 7, 9, 15, 17, 32, 255] {
        assert_eq!(sensor.set_humdity_oversampling(x), Err(WeatherError::InvalidOversampling(x)));
        assert_eq!(sensor.set_temperature_oversampling(x), Err(WeatherError::InvalidOversampling(x)));
        assert_eq!(sensor.set_pressure_oversampling(x), Err(WeatherError::InvalidOversampling(x)));
        assert_eq!(sensor.oversampling(), (5, 2, 3));
    }
    assert_eq!(calc_oversampling(1), Ok(1));
    assert_eq!(calc_oversampling(8), Ok(4));
}

#[test]
fn trigger_writes_control_registers() {
    let mut sensor = calibrated();
    sensor.set_humdity_oversampling(16).unwrap();
    sensor.set_pressure_oversampling(16).unwrap();
    sensor.set_temperature_oversampling(16).unwrap();
    let writes = sensor.one_shot().unwrap();
    assert_eq!(writes, vec![(CTRL_HUM, 5), (CTRL_MEAS, 0xb4), (CTRL_MEAS, 0xb5)]);
    assert_eq!(sensor.phase(), Phase::Triggered);
}

#[test]
fn state_machine_order() {
    let mut sensor = Bme688::new();
    assert_eq!(sensor.sample(&field_bytes(1, 2, 3)), Err(WeatherError::NotCalibrated));
    assert_eq!(sensor.one_shot(), Err(WeatherError::NotCalibrated));
    assert!(!sensor.is_ready(0x00));
    assert_eq!(sensor.compensate_temperature(419616), Err(WeatherError::NotCalibrated));
    sensor.cache_params(&BLOCK_A, &BLOCK_B, &BLOCK_C);
    assert!(!sensor.is_ready(0x00));
    assert_eq!(sensor.sample(&field_bytes(1, 2, 3)), Err(WeatherError::NotReady));
    sensor.one_shot().unwrap();
    assert!(!sensor.is_ready(0x01));
    assert_eq!(sensor.sample(&field_bytes(1, 2, 3)), Err(WeatherError::NotReady));
    assert!(sensor.is_ready(0xb4));
    assert_eq!(sensor.phase(), Phase::Ready);
    sensor.sample(&field_bytes(328232, 419616, 19000)).unwrap();
    assert_eq!(sensor.phase(), Phase::Idle);
    assert_eq!(sensor.sample(&field_bytes(328232, 419616, 19000)), Err(WeatherError::NotReady));
}

#[test]
fn offsets_need_a_temperature() {
    let sensor = calibrated();
    assert_eq!(sensor.pressure_offset(328232), Err(WeatherError::NoTemperature));
    assert_eq!(sensor.humidity_offset(19000), Err(WeatherError::NoTemperature));
}

#[test]
fn scenario_sample_terms() {
    let mut sensor = calibrated();
    let terms = measure(&mut sensor, 328232, 419616, 19000);
    assert_eq!(
        terms,
        SampleTerms { temperature: 6161471802368, pressure_offset: 607546, humidity_offset: 6200 }
    );
    let celsius = terms.temperature as f64 / TEMPERATURE_SCALE as f64;
    assert!((celsius - 1.1207651918753982).abs() < 1e-9);
    assert_eq!(sensor.pressure_offset(328232), Ok(607546));
    assert_eq!(sensor.humidity_offset(19000), Ok(6200));
}

/// The vendor's floating-point formulas, as published, evaluated directly
/// on the trims.
fn vendor_reference(t: &TrimConstants, temp_adc: f64, press_adc: f64, humd_adc: f64) -> (f64, f64, f64) {
    let (t1, t2, t3) = (t.par_t1 as f64, t.par_t2 as f64, t.par_t3 as f64);
    let var1 = (temp_adc / 16384.0 - t1 / 1024.0) * t2;
    let var2 = ((temp_adc / 131072.0 - t1 / 8192.0) * (temp_adc / 131072.0 - t1 / 8192.0)) * (t3 * 16.0);
    let t_fine = var1 + var2;
    let temp = t_fine / 5120.0;

    let (p1, p2, p3, p4, p5) = (t.par_p1 as f64, t.par_p2 as f64, t.par_p3 as f64, t.par_p4 as f64, t.par_p5 as f64);
    let (p6, p7, p8, p9, p10) = (t.par_p6 as f64, t.par_p7 as f64, t.par_p8 as f64, t.par_p9 as f64, t.par_p10 as f64);
    let v1 = t_fine / 2.0 - 64000.0;
    let mut v2 = v1 * v1 * (p6 / 131072.0);
    v2 += v1 * p5 * 2.0;
    v2 = v2 / 4.0 + p4 * 65536.0;
    let mut w1 = (p3 * v1 * v1 / 16384.0 + p2 * v1) / 524288.0;
    w1 = (1.0 + w1 / 32768.0) * p1;
    let mut pc = 1048576.0 - press_adc;
    pc = ((pc - v2 / 4096.0) * 6250.0) / w1;
    let a = p9 * pc * pc / 2147483648.0;
    let b = pc * (p8 / 32768.0);
    let c = (pc / 256.0) * (pc / 256.0) * (pc / 256.0) * (p10 / 131072.0);
    let pressure = pc + (a + b + c + p7 * 128.0) / 16.0;

    let (h1, h2, h3, h4) = (t.par_h1 as f64, t.par_h2 as f64, t.par_h3 as f64, t.par_h4 as f64);
    let (h5, h6, h7) = (t.par_h5 as f64, t.par_h6 as f64, t.par_h7 as f64);
    let hv1 = humd_adc - (h1 * 16.0 + (h3 / 2.0) * temp);
    let hv2 = hv1 * ((h2 / 262144.0) * (1.0 + (h4 / 16384.0) * temp + (h5 / 1048576.0) * temp * temp));
    let hv3 = h6 / 16384.0;
    let hv4 = h7 / 2097152.0;
    let humidity = hv2 + (hv3 + hv4 * temp) * hv2 * hv2;
    (temp, pressure / 100.0, humidity)
}

fn close(a: f64, b: f64) -> bool {
    ((a - b) / b).abs() < 0.001
}

#[test]
fn golden_vectors_match_vendor_formulas() {
    let trims = decode_trims(&BLOCK_A, &BLOCK_B, &BLOCK_C);
    for (p, t, h) in [(328232u32, 419616u32, 19000u16), (350000, 500000, 25000)] {
        let mut sensor = calibrated();
        let terms = measure(&mut sensor, p, t, h);
        let d = sensor.coefficients().unwrap();
        let (temp_ref, press_ref, humd_ref) = vendor_reference(&trims, t as f64, p as f64, h as f64);

        let temp = terms.temperature as f64 / TEMPERATURE_SCALE as f64;
        assert!(close(temp, temp_ref));

        let q = d.pressure_var1;
        let var1 = (q.a as f64 * temp * temp + q.b as f64 * temp + q.c as f64) / PRESSURE_VAR1_SCALE as f64;
        let comp = terms.pressure_offset as f64 / var1;
        let k = d.pressure;
        let cubic = k.a as f64 * comp * comp * comp + k.b as f64 * comp * comp + k.c as f64 * comp + k.d as f64;
        let pressure = cubic / PRESSURE_CUBIC_SCALE as f64;
        assert!(close(pressure, press_ref));
        assert!(close(pressure + PRESSURE_OFFSET_MBAR as f64, 1043.5865609338398) || p != 328232);

        let hc = d.humidity;
        let var4 = hc.h2 as f64 / 2f64.powi(18) + hc.h4 as f64 / 2f64.powi(32) * temp
            + hc.h5 as f64 / 2f64.powi(38) * temp * temp;
        let var5 = hc.h6 as f64 / 2f64.powi(14) + hc.h7 as f64 / 2f64.powi(21) * temp;
        let v2 = terms.humidity_offset as f64 * var4;
        let humidity = v2 + var5 * v2 * v2;
        assert!(close(humidity, humd_ref));
        assert!(humidity > 0.0 && humidity < 100.0);
    }
}

#[test]
fn scenario_temperature_from_spec_trims() {
    let mut a = BLOCK_A;
    let mut b = BLOCK_B;
    a[0] = 0x90;
    a[1] = 0x65;
    a[2] = 3;
    b[8] = 0x90;
    b[9] = 0x65;
    let mut sensor = Bme688::new();
    sensor.cache_params(&a, &b, &BLOCK_C);
    let n = sensor.compensate_temperature(419616).unwrap();
    assert_eq!(n, 3 * 419616i64 * 419616 + 1701440000 * 419616 - 708318208000000);
    assert_eq!(n, 6161471802368);
}

#[test]
fn vanishing_pressure_divisor_is_refused() {
    let mut a = BLOCK_A;
    // par_p1 = 0 makes pressure var1 zero at every temperature.
    a[4] = 0;
    a[5] = 0;
    let mut sensor = Bme688::new();
    sensor.cache_params(&a, &BLOCK_B, &BLOCK_C);
    sensor.one_shot().unwrap();
    assert!(sensor.is_ready(0));
    let data = field_bytes(328232, 419616, 19000);
    assert_eq!(sensor.sample(&data), Err(WeatherError::NotCalibrated));
    assert_eq!(sensor.phase(), Phase::Ready);
    assert_eq!(sensor.temperature(), None);
    assert_eq!(sensor.recomputes(), 0);
}

#[test]
fn fresh_driver_terms_are_zero() {
    let sensor = Bme688::new();
    assert_eq!(sensor.terms().pressure_var2, 0);
    assert_eq!(sensor.terms().humidity_var3, 0);
    assert_eq!(sensor.oversampling(), (0, 0, 0));
}
