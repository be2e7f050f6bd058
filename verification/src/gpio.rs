//! Pin handles.
//!
//! A handle is a non-owning reference to one session's lock plus an
//! immutable pin index.  Construction claims the index in the allocation
//! ledger; every operation acquires the lock, mutates the shared registers
//! through the contracts of [`crate::FtInner`], and flushes one command.
//! Dropping a handle does not revert the pin's last driven state.

use vstd::prelude::*;

use crate::CommandExecutor;
use crate::DeviceLock;
use crate::PIN_COUNT;
use crate::PinUse;
use crate::bit_of_register;
use crate::pin_mask_of;
use crate::spec_pin_mask;
use crate::error::ErrorKind;
use crate::error::FtHalError;
use crate::error::Result;

verus! {

/// An output pin of the lower GPIO bank.
pub struct OutputPin<'a, Device: CommandExecutor> {
    /// The lock of the session that owns the shared device state.
    mtx: &'a DeviceLock<Device>,
    /// The pin index inside the bank.
    idx: u8,
}

impl<'a, Device: CommandExecutor> OutputPin<'a, Device> {
    /// A handle always points inside the eight-pin bank.
    #[verifier::type_invariant]
    pub closed spec fn wf(self) -> bool {
        self.idx < PIN_COUNT
    }

    /// The index of the pin this handle drives.
    pub closed spec fn index(self) -> u8 {
        self.idx
    }

    /// Claim pin `idx` as an output under the session lock.
    ///
    /// The claim fails fast: with `GpioInvalidPin` if and only if the
    /// index is outside the bank, with `GpioPinBusy` when any live handle
    /// already owns the pin, and in both cases no register is touched and
    /// nothing is flushed.
    pub fn new(mtx: &'a DeviceLock<Device>, idx: u8) -> (r: Result<OutputPin<'a, Device>>)
        ensures
            idx >= PIN_COUNT ==> (r matches Err(e) && e matches FtHalError::HAL(
                ErrorKind::GpioInvalidPin,
            )),
            idx < PIN_COUNT ==> (r is Ok || r matches Err(
                FtHalError::HAL(ErrorKind::GpioPinBusy),
            )),
            r matches Ok(p) ==> p.index() == idx && idx < PIN_COUNT,
            r matches Err(e) ==> (e matches FtHalError::HAL(k) && (k == ErrorKind::GpioInvalidPin
                || k == ErrorKind::GpioPinBusy)),
    {
        let (mut inner, handle) = mtx.acquire_write();
        let res = inner.allocate_pin(idx, PinUse::Output);
        handle.release_write(inner);
        match res {
            Ok(()) => Ok(OutputPin { mtx, idx }),
            Err(k) => Err(FtHalError::HAL(k)),
        }
    }

    /// Drive the pin to `state`: under the session lock, set or clear
    /// exactly this pin's bit of the output-value register and flush the
    /// whole updated `{value, direction}` pair as one command, as
    /// [`crate::FtInner::pin_set`] specifies.  The flush happens on every
    /// call, also when the bit already had the requested level; a
    /// transport failure is returned verbatim.
    pub fn set(&self, state: bool) -> (r: Result<()>) {
        proof {
            use_type_invariant(self);
        }
        let (mut inner, handle) = self.mtx.acquire_write();
        let res = inner.pin_set(self.idx, state);
        handle.release_write(inner);
        res
    }

    /// Drive the pin low; see [`OutputPin::set`].
    pub fn set_low(&mut self) -> (r: Result<()>) {
        self.set(false)
    }

    /// Drive the pin high; see [`OutputPin::set`].
    pub fn set_high(&mut self) -> (r: Result<()>) {
        self.set(true)
    }

    /// The one-bit register mask of this pin.
    pub fn mask(&self) -> (r: u8)
        ensures
            r == spec_pin_mask(self.index()),
    {
        proof {
            use_type_invariant(self);
        }
        pin_mask_of(self.idx)
    }
}

/// An input pin of the lower GPIO bank.
pub struct InputPin<'a, Device: CommandExecutor> {
    /// The lock of the session that owns the shared device state.
    mtx: &'a DeviceLock<Device>,
    /// The pin index inside the bank.
    idx: u8,
}

impl<'a, Device: CommandExecutor> InputPin<'a, Device> {
    /// A handle always points inside the eight-pin bank.
    #[verifier::type_invariant]
    pub closed spec fn wf(self) -> bool {
        self.idx < PIN_COUNT
    }

    /// The index of the pin this handle reads.
    pub closed spec fn index(self) -> u8 {
        self.idx
    }

    /// Claim pin `idx` as an input under the session lock and clear its
    /// direction bit.
    ///
    /// The claim fails fast exactly as [`OutputPin::new`] does, and on
    /// failure neither register is touched.
    pub fn new(mtx: &'a DeviceLock<Device>, idx: u8) -> (r: Result<InputPin<'a, Device>>)
        ensures
            idx >= PIN_COUNT ==> (r matches Err(e) && e matches FtHalError::HAL(
                ErrorKind::GpioInvalidPin,
            )),
            idx < PIN_COUNT ==> (r is Ok || r matches Err(
                FtHalError::HAL(ErrorKind::GpioPinBusy),
            )),
            r matches Ok(p) ==> p.index() == idx && idx < PIN_COUNT,
            r matches Err(e) ==> (e matches FtHalError::HAL(k) && (k == ErrorKind::GpioInvalidPin
                || k == ErrorKind::GpioPinBusy)),
    {
        let (mut inner, handle) = mtx.acquire_write();
        let res = inner.allocate_pin(idx, PinUse::Input);
        match res {
            Ok(()) => {
                inner.set_pin_input(idx);
                handle.release_write(inner);
                Ok(InputPin { mtx, idx })
            },
            Err(k) => {
                handle.release_write(inner);
                Err(FtHalError::HAL(k))
            },
        }
    }

    /// Read the pin's level: under the session lock, flush one read
    /// command, take the register snapshot the device answered with, and
    /// extract exactly this pin's bit.  No register changes; the level
    /// depends on the physical pins alone, so nothing is promised about
    /// it.  A transport failure is returned verbatim.
    pub fn get(&self) -> (r: Result<bool>) {
        proof {
            use_type_invariant(self);
        }
        let (mut inner, handle) = self.mtx.acquire_write();
        let res = inner.pin_read();
        handle.release_write(inner);
        match res {
            Ok(snapshot) => Ok(bit_of_register(snapshot, self.idx)),
            Err(e) => Err(e),
        }
    }
}

} // verus!
