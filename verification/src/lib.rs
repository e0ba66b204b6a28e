//! Verified GPIO pin drivers for the NXP LPC55 microcontrollers.
//!
//! The drivers decide which GPIO and IOCON register accesses configure, drive
//! and read a pin; performing those accesses on the memory-mapped registers is
//! left to the caller. The effect of every access is stated over an abstract
//! model of the GPIO block, in which the drivers' promises are proved.
pub mod gpio;
pub mod laws;
pub mod regs;
mod sealed;
