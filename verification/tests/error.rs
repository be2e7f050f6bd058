//! Tests of the error taxonomy.

use ftdi_hal::error::ErrorKind;
use ftdi_hal::error::FtHalError;

#[test]
fn kind_messages() {
    assert_eq!(ErrorKind::InvalidParams.as_str(), "Invalid input params");
    assert_eq!(ErrorKind::BusBusy.as_str(), "Bus is busy");
    assert_eq!(ErrorKind::InvalidClock.as_str(), "Clock is not valid");
    assert_eq!(ErrorKind::I2cNoAck.as_str(), "No ACK from slave");
    assert_eq!(ErrorKind::GpioPinBusy.as_str(), "GPIO pin is already in use");
    assert_eq!(ErrorKind::GpioInvalidPin.as_str(), "No such GPIO pin");
    assert_eq!(ErrorKind::SpiModeNotSupported.as_str(), "Mode not supported");
}

#[test]
fn io_error_wraps_into_io_variant() {
    let e = std::io::Error::new(std::io::ErrorKind::Other, "boom");
    let wrapped = FtHalError::from(e);
    match wrapped {
        FtHalError::Io(inner) => assert_eq!(inner.to_string(), "boom"),
        other => panic!("expected the Io variant, got {:?}", other),
    }
}

#[test]
fn timeout_error_wraps_into_ftd2xx_variant() {
    let e = libftd2xx::TimeoutError::Timeout {
        actual: 1,
        expected: 2,
    };
    let wrapped = FtHalError::from(e);
    match wrapped {
        FtHalError::FTD2XX(libftd2xx::TimeoutError::Timeout { actual, expected }) => {
            assert_eq!(actual, 1);
            assert_eq!(expected, 2);
        }
        other => panic!("expected the FTD2XX variant, got {:?}", other),
    }
}
