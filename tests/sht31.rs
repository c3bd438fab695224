use weather::error::WeatherError;
use weather::sht31::{crc, process_resp};

#[test]
fn crc_of_known_words() {
    assert_eq!(crc(&[0xbe, 0xef]), 0x92);
    assert_eq!(crc(&[]), 0xff);
    assert_eq!(crc(&[0x00, 0x00]), 0x81);
}

#[test]
fn response_with_valid_checksums() {
    let resp = [0xbe, 0xef, 0x92, 0x00, 0x00, 0x81];
    assert_eq!(process_resp(&resp), Ok((0xbeef, 0x0000)));
}

#[test]
fn response_with_bad_checksums() {
    assert_eq!(process_resp(&[0xbe, 0xef, 0x93, 0x00, 0x00, 0x81]), Err(WeatherError::Checksum));
    assert_eq!(process_resp(&[0xbe, 0xef, 0x92, 0x00, 0x00, 0x80]), Err(WeatherError::Checksum));
}

#[test]
fn longer_response_uses_first_six_bytes() {
    let resp = [0xbe, 0xef, 0x92, 0x00, 0x00, 0x81, 0x55];
    assert_eq!(process_resp(&resp), Ok((0xbeef, 0x0000)));
}
