//! The 16550 serial controller: which byte goes to which of its registers.
//!
//! The controller's registers are ports `io_base` to `io_base + 7`. This
//! driver computes the port writes and reads the status byte; performing the
//! writes, and waiting between them, is left to the owner of the bus.

use vstd::prelude::*;
use vstd::string::StringSliceAdditionalSpecFns;
use crate::io::PortWrite;

verus! {

/// Offset of the data register, and of the divisor's low byte while the
/// divisor latch is open.
pub const DATA: u16 = 0;

/// Offset of the interrupt-enable register, and of the divisor's high byte
/// while the divisor latch is open.
pub const INTERRUPT_ENABLE: u16 = 1;

/// Offset of the FIFO control register.
pub const FIFO_CONTROL: u16 = 2;

/// Offset of the line control register.
pub const LINE_CONTROL: u16 = 3;

/// Offset of the modem control register.
pub const MODEM_CONTROL: u16 = 4;

/// Offset of the line status register.
pub const LINE_STATUS: u16 = 5;

/// The bit of the line status that says that the transmitter takes a byte.
pub const TRANSMIT_EMPTY: u8 = 0x20;

/// A serial controller at `io_base`.
#[derive(Hash, PartialEq, Eq, Structural, PartialOrd, Ord, Clone, Copy, Debug)]
pub struct Writer {
    pub io_base: u16,
}

impl Writer {
    /// The registers that the driver uses lie within the port space.
    pub open spec fn wf(self) -> bool {
        self.io_base + LINE_STATUS <= u16::MAX
    }

    /// Whether the registers that the driver uses lie within the port space:
    /// what `init` and `line_status_port` ask of a controller.
    pub fn in_port_space(self) -> (within: bool)
        ensures
            within == self.wf(),
    {
        self.io_base <= u16::MAX - LINE_STATUS
    }

    /// The write of `value` to the register at `offset`.
    pub open spec fn register_write(self, offset: u16, value: u8) -> PortWrite {
        PortWrite { port: (self.io_base + offset) as u16, value }
    }

    /// The writes that set the line up, in order: interrupts off; divisor
    /// latch open; divisor 3, low byte then high, for 38400 baud; latch
    /// closed, with eight data bits, no parity and one stop bit; FIFOs on and
    /// cleared, with a threshold of fourteen bytes; DTR, RTS and OUT2 raised;
    /// the received-data interrupt on.
    pub open spec fn init_program(self) -> Seq<PortWrite> {
        seq![
            self.register_write(INTERRUPT_ENABLE, 0x00),
            self.register_write(LINE_CONTROL, 0x80),
            self.register_write(DATA, 0x03),
            self.register_write(INTERRUPT_ENABLE, 0x00),
            self.register_write(LINE_CONTROL, 0x03),
            self.register_write(FIFO_CONTROL, 0xC7),
            self.register_write(MODEM_CONTROL, 0x0B),
            self.register_write(INTERRUPT_ENABLE, 0x01),
        ]
    }

    fn register(self, offset: u16, value: u8) -> (write: PortWrite)
        requires
            self.wf(),
            offset <= LINE_STATUS,
        ensures
            write == self.register_write(offset, value),
    {
        PortWrite { port: self.io_base + offset, value }
    }

    /// The writes that set the line up, to be performed in order.
    pub fn init(self) -> (program: [PortWrite; 8])
        requires
            self.wf(),
        ensures
            program@ == self.init_program(),
    {
        let program = [
            self.register(INTERRUPT_ENABLE, 0x00),
            self.register(LINE_CONTROL, 0x80),
            self.register(DATA, 0x03),
            self.register(INTERRUPT_ENABLE, 0x00),
            self.register(LINE_CONTROL, 0x03),
            self.register(FIFO_CONTROL, 0xC7),
            self.register(MODEM_CONTROL, 0x0B),
            self.register(INTERRUPT_ENABLE, 0x01),
        ];
        assert(program@ =~= self.init_program());
        program
    }

    /// The port from which the line status is read.
    pub fn line_status_port(self) -> (port: u16)
        requires
            self.wf(),
        ensures
            port == self.io_base + LINE_STATUS,
    {
        self.io_base + LINE_STATUS
    }

    /// Whether the transmitter takes a byte, given the line status just read.
    pub fn is_transmit_empty(self, line_status: u8) -> (empty: bool)
        ensures
            empty == (line_status & TRANSMIT_EMPTY != 0),
    {
        line_status & TRANSMIT_EMPTY != 0
    }

    /// The write that sends `byte`, to be performed once the transmitter
    /// takes a byte.
    pub fn write_byte(self, byte: u8) -> (write: PortWrite)
        ensures
            write == (PortWrite { port: self.io_base, value: byte }),
    {
        PortWrite { port: self.io_base, value: byte }
    }

    /// The writes that send `s`, byte by byte; before each, the transmitter
    /// is to be waited for.
    pub fn write_str(self, s: &str) -> (writes: Vec<PortWrite>)
        ensures
            writes@.len() == s.spec_bytes().len(),
            forall|i: int|
                0 <= i < writes@.len() ==> writes@[i] == (PortWrite {
                    port: self.io_base,
                    value: s.spec_bytes()[i],
                }),
    {
        let bytes = s.as_bytes();
        let mut writes: Vec<PortWrite> = Vec::new();
        let mut i: usize = 0;
        while i < bytes.len()
            invariant
                0 <= i <= bytes.len(),
                bytes@ == s.spec_bytes(),
                writes@.len() == i,
                forall|k: int|
                    0 <= k < i ==> writes@[k] == (PortWrite {
                        port: self.io_base,
                        value: bytes@[k],
                    }),
            decreases bytes.len() - i,
        {
            writes.push(self.write_byte(bytes[i]));
            i += 1;
        }
        writes
    }
}

} // verus!
