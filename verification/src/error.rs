//! Error taxonomy of the GPIO core.
//!
//! Semantic failures are reported through [`ErrorKind`]; transport failures
//! coming from the device link are wrapped unchanged in [`FtHalError`] so
//! that callers can tell the two apart.

use vstd::prelude::*;

verus! {

/// `std::io::Error` carried by the [`FtHalError::Io`] variant; opaque to the
/// verified code, which only moves it around.
#[verifier::external_type_specification]
#[verifier::external_body]
pub struct ExIoError(std::io::Error);

/// `libftd2xx::TimeoutError` carried by the [`FtHalError::FTD2XX`] variant;
/// opaque to the verified code, which only moves it around.
#[verifier::external_type_specification]
#[verifier::external_body]
pub struct ExTimeoutError(libftd2xx::TimeoutError);

/// Result alias used throughout the crate.
pub type Result<T> = std::result::Result<T, FtHalError>;

/// An error of the device abstraction: either a semantic failure of this
/// layer ([`ErrorKind`]) or a transport failure surfaced verbatim.
#[derive(Debug)]
pub enum FtHalError {
    /// A failure of this layer's own rules.
    HAL(ErrorKind),
    /// An I/O failure of the underlying link.
    Io(std::io::Error),
    /// A timeout reported by the D2XX driver.
    FTD2XX(libftd2xx::TimeoutError),
}

/// The closed set of semantic failure kinds of this layer.
#[derive(Clone, Copy, Debug, Eq, PartialEq, Structural)]
pub enum ErrorKind {
    InvalidParams,
    InvalidClock,
    BusBusy,
    I2cNoAck,
    GpioPinBusy,
    GpioInvalidPin,
    SpiModeNotSupported,
}

/// The message that [`ErrorKind::as_str`] returns for each kind.
pub open spec fn kind_message(k: ErrorKind) -> Seq<char> {
    match k {
        ErrorKind::InvalidParams => "Invalid input params"@,
        ErrorKind::BusBusy => "Bus is busy"@,
        ErrorKind::InvalidClock => "Clock is not valid"@,
        ErrorKind::I2cNoAck => "No ACK from slave"@,
        ErrorKind::GpioPinBusy => "GPIO pin is already in use"@,
        ErrorKind::GpioInvalidPin => "No such GPIO pin"@,
        ErrorKind::SpiModeNotSupported => "Mode not supported"@,
    }
}

impl ErrorKind {
    /// A short human-readable description of the failure kind.
    pub fn as_str(&self) -> (r: &str)
        ensures
            r@ == kind_message(*self),
    {
        match *self {
            ErrorKind::InvalidParams => "Invalid input params",
            ErrorKind::BusBusy => "Bus is busy",
            ErrorKind::InvalidClock => "Clock is not valid",
            ErrorKind::I2cNoAck => "No ACK from slave",
            ErrorKind::GpioPinBusy => "GPIO pin is already in use",
            ErrorKind::GpioInvalidPin => "No such GPIO pin",
            ErrorKind::SpiModeNotSupported => "Mode not supported",
        }
    }
}

impl From<std::io::Error> for FtHalError {
    fn from(e: std::io::Error) -> (r: Self)
        ensures
            r == FtHalError::Io(e),
    {
        FtHalError::Io(e)
    }
}

impl vstd::std_specs::convert::FromSpecImpl<std::io::Error> for FtHalError {
    open spec fn obeys_from_spec() -> bool {
        true
    }

    open spec fn from_spec(e: std::io::Error) -> Self {
        FtHalError::Io(e)
    }
}

impl From<libftd2xx::TimeoutError> for FtHalError {
    fn from(e: libftd2xx::TimeoutError) -> (r: Self)
        ensures
            r == FtHalError::FTD2XX(e),
    {
        FtHalError::FTD2XX(e)
    }
}

impl vstd::std_specs::convert::FromSpecImpl<libftd2xx::TimeoutError> for FtHalError {
    open spec fn obeys_from_spec() -> bool {
        true
    }

    open spec fn from_spec(e: libftd2xx::TimeoutError) -> Self {
        FtHalError::FTD2XX(e)
    }
}

} // verus!
