//! The first serial port as a writer.

use vstd::prelude::*;
use vstd::string::StringSliceAdditionalSpecFns;
use crate::io::PortWrite;
use crate::sync::flag::Flag;

verus! {

/// The first serial controller's base port.
pub const COM1: u16 = 0x3F8;

/// The writes that set the line up, in order: interrupts off; divisor latch
/// open; divisor 3, low byte then high, for 38400 baud; latch closed, with
/// eight data bits, no parity and one stop bit; FIFOs on and cleared, with a
/// threshold of fourteen bytes; interrupts on at the modem, RTS and DSR set.
pub open spec fn init_program() -> Seq<PortWrite> {
    seq![
        PortWrite { port: (COM1 + 1) as u16, value: 0x00 },
        PortWrite { port: (COM1 + 3) as u16, value: 0x80 },
        PortWrite { port: (COM1 + 0) as u16, value: 0x03 },
        PortWrite { port: (COM1 + 1) as u16, value: 0x00 },
        PortWrite { port: (COM1 + 3) as u16, value: 0x03 },
        PortWrite { port: (COM1 + 2) as u16, value: 0xC7 },
        PortWrite { port: (COM1 + 4) as u16, value: 0x0B },
    ]
}

fn init(inited: &mut Flag) -> (program: Option<[PortWrite; 7]>)
    ensures
        final(inited)@,
        program is Some <==> !old(inited)@,
        program is Some ==> program->Some_0@ == init_program(),
{
    if !inited.swap(true) {
        let program = [
            PortWrite { port: COM1 + 1, value: 0x00 },
            PortWrite { port: COM1 + 3, value: 0x80 },
            PortWrite { port: COM1 + 0, value: 0x03 },
            PortWrite { port: COM1 + 1, value: 0x00 },
            PortWrite { port: COM1 + 3, value: 0x03 },
            PortWrite { port: COM1 + 2, value: 0xC7 },
            PortWrite { port: COM1 + 4, value: 0x0B },
        ];
        assert(program@ =~= init_program());
        Some(program)
    } else {
        None
    }
}

/// Whether the transmitter takes a byte, given the line status just read
/// from port `COM1 + 5`.
pub fn is_transmit_empty(line_status: u8) -> (empty: bool)
    ensures
        empty == (line_status & 0x20 != 0),
{
    line_status & 0x20 != 0
}

/// A token for the first serial port with its line set up.
#[derive(Clone, Copy, Debug)]
pub struct Writer(());

impl Writer {
    /// The writer, and the line setup to perform first if `inited` shows that
    /// nobody has claimed it yet.
    pub fn new(inited: &mut Flag) -> (writer: (Self, Option<[PortWrite; 7]>))
        ensures
            final(inited)@,
            writer.1 is Some <==> !old(inited)@,
            writer.1 is Some ==> writer.1->Some_0@ == init_program(),
    {
        let program = init(inited);
        (Self(()), program)
    }

    /// The write that sends `byte`, to be performed once the transmitter
    /// takes a byte.
    pub fn write_byte(&mut self, byte: u8) -> (write: PortWrite)
        ensures
            write == (PortWrite { port: COM1, value: byte }),
    {
        PortWrite { port: COM1 + 0, value: byte }
    }

    /// The writes that send `s`, byte by byte; before each, the transmitter
    /// is to be waited for.
    pub fn write_str(&mut self, s: &str) -> (writes: Vec<PortWrite>)
        ensures
            writes@.len() == s.spec_bytes().len(),
            forall|i: int|
                0 <= i < writes@.len() ==> writes@[i] == (PortWrite {
                    port: COM1,
                    value: s.spec_bytes()[i],
                }),
    {
        let bytes = s.as_bytes();
        let mut writes: Vec<PortWrite> = Vec::new();
        let mut i: usize = 0;
        while i < bytes.len()
            invariant
                0 <= i <= bytes.len(),
                bytes@ == s.spec_bytes(),
                writes@.len() == i,
                forall|k: int|
                    0 <= k < i ==> writes@[k] == (PortWrite { port: COM1, value: bytes@[k] }),
            decreases bytes.len() - i,
        {
            writes.push(self.write_byte(bytes[i]));
            i += 1;
        }
        writes
    }
}

} // verus!
