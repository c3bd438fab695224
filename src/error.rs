use vstd::prelude::*;

verus! {

/// The error kinds of the library.
#[derive(Debug, PartialEq, Eq)]
pub enum WeatherError {
    /// A bus transfer failed; carries the transport's description.
    Bus(String),
    /// An oversampling request outside {1, 2, 4, 8, 16}; carries the request.
    InvalidOversampling(u8),
    /// Calibration has not been loaded yet.
    NotCalibrated,
    /// Pressure or humidity compensation was asked for before a temperature
    /// was compensated with the current calibration.
    NoTemperature,
    /// No completed measurement is waiting to be read.
    NotReady,
    /// A response failed its checksum.
    Checksum,
}

} // verus!
