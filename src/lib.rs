//! Instruction-execution core of an LR35902-class 8-bit CPU: register file,
//! address bus, cartridge, timer and interrupt controller, decoder, executor
//! and the fetch-decode-execute driver.

pub mod cartridge;
pub mod cpu;
pub mod device;
pub mod error;
pub mod mem;
pub mod timer;
pub mod util;
