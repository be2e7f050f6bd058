//! Command encoding for the lower GPIO bank.
//!
//! The byte layout comes from the MPSSE command set: an opcode byte, its
//! operands if any, and the flush marker.  The encoding itself is done by
//! the `ftdi_mpsse` command builder; the spec functions here state the
//! bytes it produces, and the wrappers are the only places that call it.

use vstd::prelude::*;

verus! {

/// MPSSE opcode: set the lower GPIO bank; two operand bytes follow.
pub const SET_BITS_LOW: u8 = 0x80;

/// MPSSE opcode: read the lower GPIO bank; one response byte comes back.
pub const GET_BITS_LOW: u8 = 0x81;

/// MPSSE opcode: flush the response buffer to the host immediately.
pub const SEND_IMMEDIATE: u8 = 0x87;

/// The batch that writes `value` and `direction` to the lower GPIO bank
/// and flushes at once.
pub open spec fn gpio_set_command(value: u8, direction: u8) -> Seq<u8> {
    seq![SET_BITS_LOW, value, direction, SEND_IMMEDIATE]
}

/// The batch that reads the lower GPIO bank and flushes at once.
pub open spec fn gpio_read_command() -> Seq<u8> {
    seq![GET_BITS_LOW, SEND_IMMEDIATE]
}

/// Relies on `ftdi_mpsse::MpsseCmdBuilder`: `set_gpio_lower(state, direction)`
/// appends the opcode 0x80 followed by the two register bytes, and
/// `send_immediate` appends the opcode 0x87; the builder is the vector of
/// the bytes appended so far.
#[verifier::external_body]
pub(crate) fn set_gpio_lower_cmd(value: u8, direction: u8) -> (r: Vec<u8>)
    ensures
        r@ == gpio_set_command(value, direction),
{
    let cmd = ftdi_mpsse::MpsseCmdBuilder::new().set_gpio_lower(value, direction).send_immediate();
    cmd.0
}

/// Relies on `ftdi_mpsse::MpsseCmdBuilder`: `gpio_lower` appends the opcode
/// 0x81 and `send_immediate` appends the opcode 0x87; the builder is the
/// vector of the bytes appended so far.
#[verifier::external_body]
pub(crate) fn gpio_lower_read_cmd() -> (r: Vec<u8>)
    ensures
        r@ == gpio_read_command(),
{
    let cmd = ftdi_mpsse::MpsseCmdBuilder::new().gpio_lower().send_immediate();
    cmd.0
}

} // verus!
