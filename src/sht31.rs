//! SHT31 response checking.
use vstd::prelude::*;
use crate::error::WeatherError;
use crate::registers::u16_of;
use vstd::slice::slice_subrange;

verus! {

/// Bus address of the sensor.
pub const SHT31_ADDR: u16 = 0x44;

/// Command that starts a single-shot measurement.
pub const SINGLE_SHOT_COMMAND: [u8; 2] = [0x24, 0x00];

/// Command that fetches the measured data.
pub const FETCH_DATA_COMMAND: [u8; 2] = [0xE0, 0x00];

/// Length of a measurement response: temperature word and its checksum,
/// humidity word and its checksum.
pub const RESPONSE_LEN: usize = 6;

/// One bit of the CRC-8 division (polynomial 0x31).
pub open spec fn crc_shift(c: u8) -> u8 {
    if c & 0x80 != 0 {
        (c << 1u8) ^ 0x31u8
    } else {
        c << 1u8
    }
}

/// `k` bits of the CRC-8 division.
pub open spec fn crc_shifts(c: u8, k: nat) -> u8
    decreases k,
{
    if k == 0 {
        c
    } else {
        crc_shifts(crc_shift(c), (k - 1) as nat)
    }
}

/// CRC-8 with polynomial 0x31 and initial value 0xFF, no final xor.
pub open spec fn crc8(data: Seq<u8>) -> u8
    decreases data.len(),
{
    if data.len() == 0 {
        0xffu8
    } else {
        crc_shifts(crc8(data.drop_last()) ^ data.last(), 8)
    }
}

/// The CRC-8 checksum of `data`.
pub fn crc(data: &[u8]) -> (r: u8)
    ensures
        r == crc8(data@),
{
    let mut crc: u8 = 0xff;
    let mut i: usize = 0;
    while i < data.len()
        invariant
            i <= data@.len(),
            crc == crc8(data@.subrange(0, i as int)),
        decreases data@.len() - i,
    {
        assert(data@.subrange(0, i + 1).drop_last() =~= data@.subrange(0, i as int));
        let ghost start = crc ^ data[i as int];
        crc = crc ^ data[i];
        let mut j: usize = 0;
        while j < 8
            invariant
                j <= 8,
                crc_shifts(crc, (8 - j) as nat) == crc_shifts(start, 8),
            decreases 8 - j,
        {
            if (crc & 0x80) != 0 {
                crc = (crc << 1u8) ^ 0x31;
            } else {
                crc = crc << 1u8;
            }
            j = j + 1;
        }
        i = i + 1;
    }
    assert(data@.subrange(0, data@.len() as int) =~= data@);
    crc
}

/// The temperature and humidity words of a response whose two checksums
/// match.
pub open spec fn response_words(resp: Seq<u8>) -> Option<(u16, u16)> {
    if crc8(resp.subrange(0, 2)) == resp[2] && crc8(resp.subrange(3, 5)) == resp[5] {
        Some((u16_of(resp[0], resp[1]) as u16, u16_of(resp[3], resp[4]) as u16))
    } else {
        None
    }
}

/// Checks a measurement response and returns its raw temperature and
/// humidity words.
pub fn process_resp(resp: &[u8]) -> (r: Result<(u16, u16), WeatherError>)
    requires
        resp@.len() >= RESPONSE_LEN,
    ensures
        response_words(resp@) matches Some(w) ==> r == Ok::<(u16, u16), WeatherError>(w),
        response_words(resp@) is None ==> r == Err::<(u16, u16), WeatherError>(WeatherError::Checksum),
{
    let temp_bytes = slice_subrange(resp, 0, 2);
    let humd_bytes = slice_subrange(resp, 3, 5);
    if crc(temp_bytes) != resp[2] {
        return Err(WeatherError::Checksum);
    }
    if crc(humd_bytes) != resp[5] {
        return Err(WeatherError::Checksum);
    }
    let temp = (resp[0] as u16) * 256 + resp[1] as u16;
    let humd = (resp[3] as u16) * 256 + resp[4] as u16;
    Ok((temp, humd))
}

} // verus!
