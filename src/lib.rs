//! An interpreter for the CHIP-8 virtual machine: memory and registers,
//! the monochrome sprite display, the two countdown timers, and the
//! fetch-decode-execute core, each stated and proved against a
//! mathematical model.

pub mod memory;
pub mod rom;
pub mod display;
pub mod input;
pub mod sound;
pub mod decode;
pub mod cpu;
