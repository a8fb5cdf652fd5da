//! Port I/O as plain values. The drivers decide what goes to which port; the
//! one who owns the bus performs it.

use vstd::prelude::*;

verus! {

/// One byte for one port: what a single `out` instruction carries.
#[derive(PartialEq, Eq, Structural, Clone, Copy, Debug)]
pub struct PortWrite {
    pub port: u16,
    pub value: u8,
}

/// Four bytes for one port: what a single long `out` instruction carries.
#[derive(PartialEq, Eq, Structural, Clone, Copy, Debug)]
pub struct PortWriteLong {
    pub port: u16,
    pub value: u32,
}

} // verus!
