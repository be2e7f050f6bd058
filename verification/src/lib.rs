//! A verified GPIO core for an FTDI MPSSE device.
//!
//! One physical device exposes eight GPIO pins that share a single
//! output-value register, a single direction register and one command
//! channel.  This crate keeps that shared state behind a verified lock,
//! tracks which capability owns each pin in an allocation ledger, and
//! proves that every pin operation touches exactly its own bit and flushes
//! one fully formed command to the device.

pub mod error;
pub mod gpio;
pub mod mpsse;

use vstd::prelude::*;
use vstd::rwlock::RwLock;
use vstd::rwlock::RwLockPredicate;

use crate::error::ErrorKind;
use crate::error::Result;

verus! {

/// The capability a pin uses a shared device through: it can send a command
/// batch, or send one and read a response byte back.
///
/// Implementations wrap a concrete transport; the core promises nothing
/// about their outcome and treats every result as possible.
pub trait CommandExecutor {
    /// Send a command batch to the device.
    fn send(&mut self, bytes: &[u8]) -> Result<()>;

    /// Send a command batch and read back one response byte.
    fn send_and_receive(&mut self, bytes: &[u8]) -> Result<u8>;
}

/// What currently owns a pin index in the allocation ledger.
#[derive(Clone, Copy, Debug, Eq, PartialEq, Structural)]
pub enum PinUse {
    /// No live handle claims the pin.
    Unused,
    /// An output handle drives the pin.
    Output,
    /// An input handle reads the pin.
    Input,
    /// The pin is reserved for a bus protocol built on the same registers.
    ReservedForBus,
}

/// The number of pins in the lower GPIO bank.
pub const PIN_COUNT: u8 = 8;

/// The one-bit mask of pin `idx` inside the eight-bit registers.
pub open spec fn spec_pin_mask(idx: u8) -> u8 {
    1u8 << idx
}

/// Whether bit `idx` of the register byte `v` is set.
pub open spec fn spec_bit(v: u8, idx: u8) -> bool {
    v & spec_pin_mask(idx) != 0
}

/// The output-value register after driving pin `idx` to `state`.
pub open spec fn spec_pin_value(value: u8, idx: u8, state: bool) -> u8 {
    if state {
        value | spec_pin_mask(idx)
    } else {
        value & !spec_pin_mask(idx)
    }
}

/// The outcome of claiming pin `idx` for `purpose` against the ledger
/// `pins`: the result reported to the caller and the ledger afterwards.
///
/// An index outside the bank is rejected; a pin already owned by any live
/// handle is busy; otherwise the claim is recorded.
pub open spec fn spec_allocate(pins: Seq<PinUse>, idx: u8, purpose: PinUse) -> (std::result::Result<
    (),
    ErrorKind,
>, Seq<PinUse>)
    recommends
        pins.len() == PIN_COUNT,
{
    if idx >= PIN_COUNT {
        (Err(ErrorKind::GpioInvalidPin), pins)
    } else if pins[idx as int] != PinUse::Unused {
        (Err(ErrorKind::GpioPinBusy), pins)
    } else {
        (Ok(()), pins.update(idx as int, purpose))
    }
}

/// The shared device state: the two register bytes, the pin-allocation
/// ledger, and the transport the commands go out through.
///
/// One value of this type lives inside the lock of an [`FtHal`] session; a
/// pin handle may only reach it through that lock, so the read-modify-write
/// of a register and the flush that follows it appear atomic to the device.
pub struct FtInner<Device> {
    /// The transport that executes command batches.
    pub ft: Device,
    /// Current bit pattern of the GPIO output-value register.
    pub value: u8,
    /// Current bit pattern of the GPIO direction register (1 = output).
    pub direction: u8,
    /// Which capability owns each of the eight pins.
    pub pins: Vec<PinUse>,
    /// Model of the command channel: every batch flushed to the transport
    /// so far, oldest first.  The contracts of the register operations
    /// count their flushes against this log, so that one logical pin
    /// operation provably flushes exactly one fully formed batch and a
    /// failed allocation provably flushes none.
    pub flushed: Ghost<Seq<Seq<u8>>>,
}

impl<Device> FtInner<Device> {
    /// The ledger always covers exactly the eight pins of the bank.
    pub open spec fn wf(&self) -> bool {
        self.pins@.len() == PIN_COUNT
    }
}

impl<Device: CommandExecutor> FtInner<Device> {
    /// A fresh device state: both registers zero, every pin unused,
    /// nothing flushed yet.
    pub fn new(device: Device) -> (s: Self)
        ensures
            s.wf(),
            s.ft == device,
            s.value == 0u8,
            s.direction == 0u8,
            forall|i: int| 0 <= i < PIN_COUNT ==> s.pins@[i] == PinUse::Unused,
            s.flushed@.len() == 0,
    {
        let mut pins: Vec<PinUse> = Vec::new();
        let mut i: u8 = 0;
        while i < PIN_COUNT
            invariant
                i <= PIN_COUNT,
                pins@.len() == i as int,
                forall|j: int| 0 <= j < i as int ==> pins@[j] == PinUse::Unused,
            decreases PIN_COUNT - i,
        {
            pins.push(PinUse::Unused);
            i = i + 1;
        }
        FtInner { ft: device, value: 0, direction: 0, pins, flushed: Ghost(Seq::empty()) }
    }

    /// Record that pin `idx` is claimed for `purpose`.
    ///
    /// Fails with `GpioInvalidPin` when the index is outside the bank and
    /// with `GpioPinBusy` when any live handle already owns the pin; only a
    /// successful claim changes the ledger, and the registers and the
    /// transport are never touched.
    pub fn allocate_pin(&mut self, idx: u8, purpose: PinUse) -> (r: std::result::Result<
        (),
        ErrorKind,
    >)
        requires
            old(self).wf(),
            purpose != PinUse::Unused,
        ensures
            final(self).wf(),
            final(self).ft == old(self).ft,
            final(self).value == old(self).value,
            final(self).direction == old(self).direction,
            final(self).flushed == old(self).flushed,
            r == spec_allocate(old(self).pins@, idx, purpose).0,
            final(self).pins@ == spec_allocate(old(self).pins@, idx, purpose).1,
    {
        if idx >= PIN_COUNT {
            Err(ErrorKind::GpioInvalidPin)
        } else {
            let current: PinUse = self.pins[idx as usize];
            match current {
                PinUse::Unused => {
                    self.pins[idx as usize] = purpose;
                    Ok(())
                },
                _ => Err(ErrorKind::GpioPinBusy),
            }
        }
    }

    /// Drive pin `idx` to `state` and flush one command.
    ///
    /// Exactly bit `idx` of the output-value register is set or cleared and
    /// the direction register and the ledger are left alone; then the whole
    /// updated `{value, direction}` pair is encoded into a single batch and
    /// sent, so the device never sees a half-written register state.  The
    /// flush log grows by exactly that one batch: the flush is not
    /// suppressed when the bit already had the requested level, and no
    /// second batch goes out.  A transport failure is returned verbatim;
    /// the register update and the flush stand either way.
    pub fn pin_set(&mut self, idx: u8, state: bool) -> (r: Result<()>)
        requires
            old(self).wf(),
            idx < PIN_COUNT,
        ensures
            final(self).wf(),
            final(self).value == spec_pin_value(old(self).value, idx, state),
            final(self).direction == old(self).direction,
            final(self).pins@ == old(self).pins@,
            final(self).flushed@ == old(self).flushed@.push(
                crate::mpsse::gpio_set_command(
                    spec_pin_value(old(self).value, idx, state),
                    old(self).direction,
                ),
            ),
    {
        if state {
            self.value = self.value | pin_mask_of(idx);
        } else {
            self.value = self.value & !pin_mask_of(idx);
        }
        let cmd = crate::mpsse::set_gpio_lower_cmd(self.value, self.direction);
        self.flushed = Ghost(self.flushed@.push(cmd@));
        self.ft.send(cmd.as_slice())
    }

    /// Configure pin `idx` as an input: clear exactly its direction bit.
    ///
    /// The output-value register and the ledger are left alone, and nothing
    /// is flushed; the new direction reaches the device with the next
    /// command that encodes the register pair.
    pub fn set_pin_input(&mut self, idx: u8)
        requires
            old(self).wf(),
            idx < PIN_COUNT,
        ensures
            final(self).wf(),
            final(self).value == old(self).value,
            final(self).direction == old(self).direction & !spec_pin_mask(idx),
            final(self).pins@ == old(self).pins@,
            final(self).ft == old(self).ft,
            final(self).flushed == old(self).flushed,
    {
        self.direction = self.direction & !pin_mask_of(idx);
    }

    /// Read the lower GPIO bank: flush one read command and hand back the
    /// register snapshot the device answered with.
    ///
    /// No register and no ledger entry changes, and the flush log grows by
    /// exactly the one read batch.  What the snapshot byte holds depends
    /// on the physical pins alone, so nothing is promised about its value.
    pub fn pin_read(&mut self) -> (r: Result<u8>)
        requires
            old(self).wf(),
        ensures
            final(self).wf(),
            final(self).value == old(self).value,
            final(self).direction == old(self).direction,
            final(self).pins@ == old(self).pins@,
            final(self).flushed@ == old(self).flushed@.push(crate::mpsse::gpio_read_command()),
    {
        let cmd = crate::mpsse::gpio_lower_read_cmd();
        self.flushed = Ghost(self.flushed@.push(cmd@));
        self.ft.send_and_receive(cmd.as_slice())
    }
}

/// The executable mask of pin `idx`, `1 << idx`.
pub fn pin_mask_of(idx: u8) -> (r: u8)
    requires
        idx < PIN_COUNT,
    ensures
        r == spec_pin_mask(idx),
{
    1u8 << idx
}

/// Whether bit `idx` of the register snapshot `snapshot` is set; used to
/// extract one pin's level out of what the device answered.
pub fn bit_of_register(snapshot: u8, idx: u8) -> (b: bool)
    requires
        idx < PIN_COUNT,
    ensures
        b == spec_bit(snapshot, idx),
{
    snapshot & pin_mask_of(idx) != 0
}

/// The lock predicate of a device session: only well-formed shared states
/// may be stored in the lock.
pub struct DevicePred;

impl<Device> RwLockPredicate<FtInner<Device>> for DevicePred {
    open spec fn inv(self, v: FtInner<Device>) -> bool {
        v.wf()
    }
}

/// The lock that serializes every pin handle of one device session.
pub type DeviceLock<Device> = RwLock<FtInner<Device>, DevicePred>;

/// A device session: the sole owner of the shared device state, handed to
/// pin handles only as mutually exclusive scoped borrows through its lock.
pub struct FtHal<Device: CommandExecutor> {
    mtx: DeviceLock<Device>,
}

impl<Device: CommandExecutor> FtHal<Device> {
    /// Open a session over `device`, with both registers zero and every
    /// pin unused.
    pub fn new(device: Device) -> (s: Self) {
        let inner = FtInner::new(device);
        FtHal { mtx: RwLock::new(inner, Ghost(DevicePred)) }
    }

    /// Claim pin `idx` as an output and hand back its handle.
    ///
    /// Fails with `GpioInvalidPin` if and only if the index is outside the
    /// bank, with `GpioPinBusy` when the pin is already owned; the
    /// registers are not touched, so the device never acts for a handle
    /// that was never granted its pin.
    pub fn output_pin(&self, idx: u8) -> (r: Result<crate::gpio::OutputPin<'_, Device>>)
        ensures
            idx >= PIN_COUNT ==> (r matches Err(e) && e matches crate::error::FtHalError::HAL(
                ErrorKind::GpioInvalidPin,
            )),
            idx < PIN_COUNT ==> (r is Ok || r matches Err(
                crate::error::FtHalError::HAL(ErrorKind::GpioPinBusy),
            )),
            r matches Ok(p) ==> p.index() == idx && idx < PIN_COUNT,
            r matches Err(e) ==> (e matches crate::error::FtHalError::HAL(k) && (k
                == ErrorKind::GpioInvalidPin || k == ErrorKind::GpioPinBusy)),
    {
        crate::gpio::OutputPin::new(&self.mtx, idx)
    }

    /// Claim pin `idx` as an input and hand back its handle; the pin's
    /// direction bit is cleared.  Fails exactly as [`FtHal::output_pin`]
    /// does.
    pub fn input_pin(&self, idx: u8) -> (r: Result<crate::gpio::InputPin<'_, Device>>)
        ensures
            idx >= PIN_COUNT ==> (r matches Err(e) && e matches crate::error::FtHalError::HAL(
                ErrorKind::GpioInvalidPin,
            )),
            idx < PIN_COUNT ==> (r is Ok || r matches Err(
                crate::error::FtHalError::HAL(ErrorKind::GpioPinBusy),
            )),
            r matches Ok(p) ==> p.index() == idx && idx < PIN_COUNT,
            r matches Err(e) ==> (e matches crate::error::FtHalError::HAL(k) && (k
                == ErrorKind::GpioInvalidPin || k == ErrorKind::GpioPinBusy)),
    {
        crate::gpio::InputPin::new(&self.mtx, idx)
    }

    /// End the session and hand the shared state back, for inspection or
    /// to recover the transport.
    pub fn into_inner(self) -> (r: FtInner<Device>)
        ensures
            r.wf(),
    {
        self.mtx.into_inner()
    }
}

/// Driving a pin touches exactly its own bit: after driving pin `i`, bit
/// `i` of the output-value register holds the driven level and every other
/// bit of the register is unchanged.
pub proof fn lemma_set_affects_only_its_bit(value: u8, i: u8, j: u8)
    requires
        i < PIN_COUNT,
        j < PIN_COUNT,
    ensures
        spec_bit(spec_pin_value(value, i, true), i) == true,
        spec_bit(spec_pin_value(value, i, false), i) == false,
        i != j ==> spec_bit(spec_pin_value(value, i, true), j) == spec_bit(value, j),
        i != j ==> spec_bit(spec_pin_value(value, i, false), j) == spec_bit(value, j),
{
    assert((value | (1u8 << i)) & (1u8 << i) != 0) by (bit_vector)
        requires
            i < 8u8,
    ;
    assert((value & !(1u8 << i)) & (1u8 << i) == 0) by (bit_vector)
        requires
            i < 8u8,
    ;
    assert(i != j ==> ((value | (1u8 << i)) & (1u8 << j) == 0 <==> value & (1u8 << j) == 0))
        by (bit_vector)
        requires
            i < 8u8,
            j < 8u8,
    ;
    assert(i != j ==> ((value & !(1u8 << i)) & (1u8 << j) == 0 <==> value & (1u8 << j) == 0))
        by (bit_vector)
        requires
            i < 8u8,
            j < 8u8,
    ;
}

/// Driving a pin to a level it already holds changes nothing: driving the
/// same pin to the same level twice leaves the same register value as
/// driving it once, so the two flushes encode identical bytes.
pub proof fn lemma_set_idempotent(value: u8, idx: u8, state: bool)
    requires
        idx < PIN_COUNT,
    ensures
        spec_pin_value(spec_pin_value(value, idx, state), idx, state) == spec_pin_value(
            value,
            idx,
            state,
        ),
{
    assert((value | (1u8 << idx)) | (1u8 << idx) == value | (1u8 << idx)) by (bit_vector);
    assert((value & !(1u8 << idx)) & !(1u8 << idx) == value & !(1u8 << idx)) by (bit_vector);
}

/// Serialized writes never lose each other: when two handles drive two
/// different pins one after the other, the register value the second write
/// flushes still holds the level the first write drove, next to its own.
/// Together with the session lock, which keeps the two register updates
/// and their flushes from interleaving, this is why every flushed
/// `{value, direction}` pair is fully formed.
pub proof fn lemma_serialized_writes_compose(value: u8, i: u8, si: bool, j: u8, sj: bool)
    requires
        i < PIN_COUNT,
        j < PIN_COUNT,
        i != j,
    ensures
        spec_bit(spec_pin_value(spec_pin_value(value, i, si), j, sj), i) == si,
        spec_bit(spec_pin_value(spec_pin_value(value, i, si), j, sj), j) == sj,
{
    lemma_set_affects_only_its_bit(value, i, j);
    lemma_set_affects_only_its_bit(spec_pin_value(value, i, si), j, i);
}

/// Allocation is exclusive: once a claim on a pin index has succeeded, any
/// further claim on the same index fails with `GpioPinBusy` and leaves the
/// ledger as it was.
pub proof fn lemma_allocation_exclusive(pins: Seq<PinUse>, idx: u8, first: PinUse, second: PinUse)
    requires
        pins.len() == PIN_COUNT,
        first != PinUse::Unused,
        spec_allocate(pins, idx, first).0 is Ok,
    ensures
        spec_allocate(spec_allocate(pins, idx, first).1, idx, second) == (std::result::Result::<
            (),
            ErrorKind,
        >::Err(ErrorKind::GpioPinBusy), spec_allocate(pins, idx, first).1),
{
}

/// Every index outside the eight-pin bank is rejected: a claim on index 8
/// or above fails with `GpioInvalidPin` whatever the ledger holds.
pub proof fn lemma_allocation_range(pins: Seq<PinUse>, idx: u8, purpose: PinUse)
    requires
        idx >= PIN_COUNT,
    ensures
        spec_allocate(pins, idx, purpose).0 == std::result::Result::<(), ErrorKind>::Err(
            ErrorKind::GpioInvalidPin,
        ),
        spec_allocate(pins, idx, purpose).1 == pins,
{
}

} // verus!
