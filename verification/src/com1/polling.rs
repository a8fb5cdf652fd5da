//! The first serial port, driven by polling.

use vstd::prelude::*;
use vstd::string::StringSliceAdditionalSpecFns;
use crate::com1::init;
use crate::com1::init_program;
use crate::com1::outb;
use crate::com1::register_write;
use crate::io::PortWrite;
use crate::sync::flag::Flag;

verus! {

/// A token for the first serial port with its line set up.
#[derive(Clone, Copy, Debug)]
pub struct Serial(());

impl Serial {
    /// The port, and the line setup to perform first if `inited` shows that
    /// nobody has claimed it yet.
    pub fn new(inited: &mut Flag) -> (port: (Self, Option<[PortWrite; 7]>))
        ensures
            final(inited)@,
            port.1 is Some <==> !old(inited)@,
            port.1 is Some ==> port.1->Some_0@ == init_program(),
    {
        let program = init(inited);
        (Self(()), program)
    }

    /// The writes that send `s`, byte by byte; before each, the transmitter
    /// is to be waited for.
    pub fn write_str(self, s: &str) -> (writes: Vec<PortWrite>)
        ensures
            writes@.len() == s.spec_bytes().len(),
            forall|i: int|
                0 <= i < writes@.len() ==> writes@[i] == register_write(0, s.spec_bytes()[i]),
    {
        let bytes = s.as_bytes();
        let mut writes: Vec<PortWrite> = Vec::new();
        let mut i: usize = 0;
        while i < bytes.len()
            invariant
                0 <= i <= bytes.len(),
                bytes@ == s.spec_bytes(),
                writes@.len() == i,
                forall|k: int| 0 <= k < i ==> writes@[k] == register_write(0, bytes@[k]),
            decreases bytes.len() - i,
        {
            writes.push(self.write_byte(bytes[i]));
            i += 1;
        }
        writes
    }

    /// The write that sends `byte`, to be performed once the transmitter
    /// takes a byte.
    pub fn write_byte(self, byte: u8) -> (write: PortWrite)
        ensures
            write == register_write(0, byte),
    {
        outb(0, byte)
    }
}

} // verus!
