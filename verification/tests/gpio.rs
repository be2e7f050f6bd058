//! Behavioural tests of the GPIO core, run against a recording transport.

use ftdi_hal::error::ErrorKind;
use ftdi_hal::error::FtHalError;
use ftdi_hal::error::Result;
use ftdi_hal::CommandExecutor;
use ftdi_hal::FtHal;
use ftdi_hal::PinUse;

/// A transport that records every command batch it is handed and answers
/// reads with a fixed register snapshot.
struct Recorder {
    sent: Vec<Vec<u8>>,
    snapshot: u8,
}

impl Recorder {
    fn new(snapshot: u8) -> Recorder {
        Recorder { sent: Vec::new(), snapshot }
    }
}

impl CommandExecutor for Recorder {
    fn send(&mut self, bytes: &[u8]) -> Result<()> {
        self.sent.push(bytes.to_vec());
        Ok(())
    }

    fn send_and_receive(&mut self, bytes: &[u8]) -> Result<u8> {
        self.sent.push(bytes.to_vec());
        Ok(self.snapshot)
    }
}

/// A transport that refuses every command.
struct Failing;

impl CommandExecutor for Failing {
    fn send(&mut self, _bytes: &[u8]) -> Result<()> {
        Err(FtHalError::Io(std::io::Error::new(
            std::io::ErrorKind::Other,
            "link down",
        )))
    }

    fn send_and_receive(&mut self, _bytes: &[u8]) -> Result<u8> {
        Err(FtHalError::Io(std::io::Error::new(
            std::io::ErrorKind::Other,
            "link down",
        )))
    }
}

#[test]
fn scenario_pin3_high_then_low() {
    let hal = FtHal::new(Recorder::new(0));
    {
        let mut pin = hal.output_pin(3).unwrap();
        pin.set_high().unwrap();
        pin.set_low().unwrap();
    }
    let inner = hal.into_inner();
    assert_eq!(inner.ft.sent, vec![vec![0x80, 0x08, 0x00, 0x87], vec![0x80, 0x00, 0x00, 0x87]]);
    assert_eq!(inner.value, 0x00);
    assert_eq!(inner.direction, 0x00);
}

#[test]
fn scenario_pins_0_and_1_high() {
    let hal = FtHal::new(Recorder::new(0));
    {
        let mut pin0 = hal.output_pin(0).unwrap();
        let mut pin1 = hal.output_pin(1).unwrap();
        pin0.set_high().unwrap();
        pin1.set_high().unwrap();
    }
    let inner = hal.into_inner();
    assert_eq!(inner.value, 0x03);
    assert_eq!(inner.ft.sent, vec![vec![0x80, 0x01, 0x00, 0x87], vec![0x80, 0x03, 0x00, 0x87]]);
}

#[test]
fn mask_touches_only_its_own_bit() {
    let hal = FtHal::new(Recorder::new(0));
    {
        let mut pin0 = hal.output_pin(0).unwrap();
        let mut pin7 = hal.output_pin(7).unwrap();
        pin0.set_high().unwrap();
        pin7.set_high().unwrap();
        pin7.set_low().unwrap();
    }
    let inner = hal.into_inner();
    assert_eq!(inner.value, 0x01);
    assert_eq!(
        inner.ft.sent,
        vec![
            vec![0x80, 0x01, 0x00, 0x87],
            vec![0x80, 0x81, 0x00, 0x87],
            vec![0x80, 0x01, 0x00, 0x87],
        ]
    );
}

#[test]
fn allocating_a_pin_twice_is_busy() {
    let hal = FtHal::new(Recorder::new(0));
    let _first = hal.output_pin(5).unwrap();
    match hal.output_pin(5) {
        Err(FtHalError::HAL(kind)) => assert_eq!(kind, ErrorKind::GpioPinBusy),
        other => panic!("expected a busy pin, got {:?}", other.map(|_| ())),
    }
}

#[test]
fn allocating_input_over_output_is_busy() {
    let hal = FtHal::new(Recorder::new(0));
    let _first = hal.output_pin(2).unwrap();
    match hal.input_pin(2) {
        Err(FtHalError::HAL(kind)) => assert_eq!(kind, ErrorKind::GpioPinBusy),
        other => panic!("expected a busy pin, got {:?}", other.map(|_| ())),
    }
}

#[test]
fn allocating_out_of_range_is_invalid() {
    let hal = FtHal::new(Recorder::new(0));
    match hal.output_pin(8) {
        Err(FtHalError::HAL(kind)) => assert_eq!(kind, ErrorKind::GpioInvalidPin),
        other => panic!("expected an invalid pin, got {:?}", other.map(|_| ())),
    }
    match hal.output_pin(255) {
        Err(FtHalError::HAL(kind)) => assert_eq!(kind, ErrorKind::GpioInvalidPin),
        other => panic!("expected an invalid pin, got {:?}", other.map(|_| ())),
    }
    match hal.input_pin(8) {
        Err(FtHalError::HAL(kind)) => assert_eq!(kind, ErrorKind::GpioInvalidPin),
        other => panic!("expected an invalid pin, got {:?}", other.map(|_| ())),
    }
}

#[test]
fn failed_allocation_touches_no_register() {
    let hal = FtHal::new(Recorder::new(0));
    let _first = hal.output_pin(4).unwrap();
    let _ = hal.output_pin(4);
    let _ = hal.output_pin(9);
    let inner = hal.into_inner();
    assert!(inner.ft.sent.is_empty());
    assert_eq!(inner.value, 0x00);
    assert_eq!(inner.direction, 0x00);
}

#[test]
fn set_high_twice_flushes_identical_values() {
    let hal = FtHal::new(Recorder::new(0));
    {
        let mut pin = hal.output_pin(6).unwrap();
        pin.set_high().unwrap();
        pin.set_high().unwrap();
    }
    let inner = hal.into_inner();
    assert_eq!(inner.ft.sent.len(), 2);
    assert_eq!(inner.ft.sent[0], inner.ft.sent[1]);
    assert_eq!(inner.value, 0x40);
}

#[test]
fn two_handles_two_full_flushes() {
    let hal = FtHal::new(Recorder::new(0));
    {
        let mut pin2 = hal.output_pin(2).unwrap();
        let mut pin5 = hal.output_pin(5).unwrap();
        pin2.set_high().unwrap();
        pin5.set_high().unwrap();
    }
    let inner = hal.into_inner();
    assert_eq!(inner.ft.sent.len(), 2);
    for cmd in &inner.ft.sent {
        assert_eq!(cmd.len(), 4);
        assert_eq!(cmd[0], 0x80);
        assert_eq!(cmd[3], 0x87);
    }
    assert_eq!(inner.ft.sent[0][1], 0x04);
    assert_eq!(inner.ft.sent[1][1], 0x24);
}

#[test]
fn input_pin_reads_its_own_bit() {
    let hal = FtHal::new(Recorder::new(0b0000_0100));
    {
        let pin2 = hal.input_pin(2).unwrap();
        assert!(pin2.get().unwrap());
    }
    let hal2 = FtHal::new(Recorder::new(0b0000_0100));
    {
        let pin3 = hal2.input_pin(3).unwrap();
        assert!(!pin3.get().unwrap());
    }
    let inner = hal2.into_inner();
    assert_eq!(inner.ft.sent, vec![vec![0x81, 0x87]]);
}

#[test]
fn input_pin_clears_its_direction_bit() {
    let hal = FtHal::new(Recorder::new(0));
    {
        let _pin = hal.input_pin(1).unwrap();
    }
    let inner = hal.into_inner();
    assert_eq!(inner.direction, 0x00);
    assert_eq!(inner.pins[1], PinUse::Input);
    assert_eq!(inner.pins[0], PinUse::Unused);
}

#[test]
fn transport_error_surfaces_verbatim() {
    let hal = FtHal::new(Failing);
    let mut pin = hal.output_pin(0).unwrap();
    match pin.set_high() {
        Err(FtHalError::Io(e)) => assert_eq!(e.to_string(), "link down"),
        other => panic!("expected an I/O error, got {:?}", other),
    }
    // The register mutation stands even when the flush failed.
    drop(pin);
    let inner = hal.into_inner();
    assert_eq!(inner.value, 0x01);
}
