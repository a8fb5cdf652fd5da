//! Non-blocking synchronisation for a freestanding environment, with the
//! display and serial drivers that sit on top of it.
//!
//! Every operation here is a function of plain state: a lock is a flag and a
//! payload, an acquisition is one compare-and-set on the flag, and a handle is
//! a pair of exclusive borrows. Concurrency enters as interleaving: each call
//! is one indivisible step, and `sync::history` proves what holds of every
//! interleaving of such steps.

pub mod com1;
pub mod drivers;
pub mod io;
pub mod sync;

use vstd::prelude::*;
use crate::io::PortWriteLong;

verus! {

/// The emulator's exit device.
pub const QEMU_EXIT_PORT: u16 = 0xf4;

/// What to tell the emulator on the way out.
#[derive(Hash, PartialOrd, Ord, PartialEq, Eq, Structural, Clone, Copy, Debug)]
pub enum QemuExitCode {
    Success,
    Failure,
}

impl QemuExitCode {
    /// The number that the exit device takes for this code.
    pub open spec fn spec_code(self) -> u32 {
        match self {
            QemuExitCode::Success => 0x10,
            QemuExitCode::Failure => 0x11,
        }
    }

    /// The number that the exit device takes for this code.
    #[verifier::when_used_as_spec(spec_code)]
    pub fn code(self) -> (code: u32)
        ensures
            code == self.spec_code(),
    {
        match self {
            QemuExitCode::Success => 0x10,
            QemuExitCode::Failure => 0x11,
        }
    }
}

/// The write that makes the emulator exit with `exit_code`.
pub fn exit_qemu(exit_code: QemuExitCode) -> (write: PortWriteLong)
    ensures
        write == (PortWriteLong { port: QEMU_EXIT_PORT, value: exit_code.code() }),
{
    PortWriteLong { port: QEMU_EXIT_PORT, value: exit_code.code() }
}

} // verus!
