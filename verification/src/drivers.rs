//! Drivers for the text display and the serial port.

pub mod com1;
pub mod uart_16550;
pub mod vga;
