//! Register map of the BME688 and decoding of register bytes.
use vstd::prelude::*;

verus! {

/// Bus address of the sensor.
pub const BME688_ADDR: u16 = 0x76;

/// First register of the trim block that holds the temperature and pressure
/// trims (0x8A ..= 0xA0).
pub const TRIM_BLOCK_A_START: u8 = 0x8A;

/// Length of the trim block that starts at `TRIM_BLOCK_A_START`.
pub const TRIM_BLOCK_A_LEN: usize = 23;

/// First register of the trim block that holds the humidity trims, the
/// first temperature trim and the gas heater trims (0xE1 ..= 0xEE).
pub const TRIM_BLOCK_B_START: u8 = 0xE1;

/// Length of the trim block that starts at `TRIM_BLOCK_B_START`.
pub const TRIM_BLOCK_B_LEN: usize = 14;

/// First register of the device-state block (0x00 ..= 0x02): heater
/// resistance value and heater range.
pub const TRIM_BLOCK_C_START: u8 = 0x00;

/// Length of the block that starts at `TRIM_BLOCK_C_START`.
pub const TRIM_BLOCK_C_LEN: usize = 3;

/// Humidity oversampling control register.
pub const CTRL_HUM: u8 = 0x72;

/// Temperature / pressure oversampling and mode control register.
pub const CTRL_MEAS: u8 = 0x74;

/// First register of a measurement field's ADC data (pressure MSB of
/// field 0); the field holds pressure (3 bytes), temperature (3 bytes) and
/// humidity (2 bytes).
pub const FIELD_DATA_START: u8 = 0x1F;

/// Distance between consecutive measurement fields.
pub const FIELD_STRIDE: u8 = 0x11;

/// Number of ADC bytes read from one field.
pub const FIELD_DATA_LEN: usize = 8;

/// A byte read as a two's complement signed value.
pub open spec fn i8_of(b: u8) -> int {
    if b < 128 {
        b as int
    } else {
        b - 256
    }
}

/// Two bytes as an unsigned 16-bit value, `hi` the more significant.
pub open spec fn u16_of(hi: u8, lo: u8) -> int {
    hi * 256 + lo
}

/// Two bytes as a two's complement signed 16-bit value.
pub open spec fn i16_of(hi: u8, lo: u8) -> int {
    if u16_of(hi, lo) < 32768 {
        u16_of(hi, lo)
    } else {
        u16_of(hi, lo) - 65536
    }
}

/// A 20-bit ADC code from its MSB, LSB and the upper nibble of its XLSB.
pub open spec fn adc20_of(msb: u8, lsb: u8, xlsb: u8) -> int {
    msb * 4096 + lsb * 16 + xlsb / 16
}

/// Reads a byte as a signed value.
pub fn read_i8(b: u8) -> (r: i8)
    ensures
        r == i8_of(b),
{
    if b < 128 {
        b as i8
    } else {
        (b as i16 - 256) as i8
    }
}

/// Reads two bytes stored little-endian (`lo` at the lower address).
pub fn read_u16_le(lo: u8, hi: u8) -> (r: u16)
    ensures
        r == u16_of(hi, lo),
{
    (hi as u16) * 256 + (lo as u16)
}

/// Reads two bytes stored big-endian (`hi` at the lower address).
pub fn read_u16_be(hi: u8, lo: u8) -> (r: u16)
    ensures
        r == u16_of(hi, lo),
{
    (hi as u16) * 256 + (lo as u16)
}

/// Reads two bytes stored little-endian as a signed value.
pub fn read_i16_le(lo: u8, hi: u8) -> (r: i16)
    ensures
        r == i16_of(hi, lo),
{
    let w = read_u16_le(lo, hi);
    if w < 32768 {
        w as i16
    } else {
        (w as i32 - 65536) as i16
    }
}

/// Assembles a 20-bit ADC code from three big-endian bytes.
pub fn read_adc20(msb: u8, lsb: u8, xlsb: u8) -> (r: u32)
    ensures
        r == adc20_of(msb, lsb, xlsb),
        r < 0x100000,
{
    (msb as u32) * 4096 + (lsb as u32) * 16 + (xlsb as u32) / 16
}

/// The register at which a field's ADC data starts.
pub fn field_data_start(field: u8) -> (r: u8)
    requires
        field < 3,
    ensures
        r == FIELD_DATA_START + FIELD_STRIDE * field,
{
    FIELD_DATA_START + FIELD_STRIDE * field
}

} // verus!
