//! The first serial port, at its fixed address: line setup, once, and the
//! readiness test.

pub mod polling;

use vstd::prelude::*;
use crate::io::PortWrite;
use crate::sync::flag::Flag;

verus! {

/// The first serial controller's base port.
pub const COM1: u16 = 0x3F8;

/// The write of `value` to the controller's register at `port_offset`.
pub open spec fn register_write(port_offset: u16, value: u8) -> PortWrite {
    PortWrite { port: (COM1 + port_offset) as u16, value }
}

/// The writes that set the line up, in order: interrupts off; divisor latch
/// open; divisor 3, low byte then high, for 38400 baud; latch closed, with
/// eight data bits, no parity and one stop bit; FIFOs on and cleared, with a
/// threshold of fourteen bytes; interrupts on at the modem, RTS and DSR set.
pub open spec fn init_program() -> Seq<PortWrite> {
    seq![
        register_write(1, 0x00),
        register_write(3, 0x80),
        register_write(0, 0x03),
        register_write(1, 0x00),
        register_write(3, 0x03),
        register_write(2, 0xC7),
        register_write(4, 0x0B),
    ]
}

/// The write of `val` to the register at `port_offset`.
fn outb(port_offset: u16, val: u8) -> (write: PortWrite)
    requires
        COM1 + port_offset <= u16::MAX,
    ensures
        write == register_write(port_offset, val),
{
    PortWrite { port: COM1 + port_offset, value: val }
}

/// Claims the line setup: the first call on `inited` sets the flag and
/// returns the writes to perform, every later call returns `None`.
fn init(inited: &mut Flag) -> (program: Option<[PortWrite; 7]>)
    ensures
        final(inited)@,
        program is Some <==> !old(inited)@,
        program is Some ==> program->Some_0@ == init_program(),
{
    if !inited.swap(true) {
        let program = [
            outb(1, 0x00),
            outb(3, 0x80),
            outb(0, 0x03),
            outb(1, 0x00),
            outb(3, 0x03),
            outb(2, 0xC7),
            outb(4, 0x0B),
        ];
        assert(program@ =~= init_program());
        Some(program)
    } else {
        None
    }
}

/// Whether the transmitter takes a byte, given the line status just read
/// from register 5.
pub fn is_transmit_empty(line_status: u8) -> (empty: bool)
    ensures
        empty == (line_status & 0x20 != 0),
{
    line_status & 0x20 != 0
}

} // verus!
