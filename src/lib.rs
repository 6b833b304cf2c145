//! A virtual machine for the classic 4 KiB, 16-register bytecode platform with a
//! 64x32 monochrome display, a 16-key pad and two 60 Hz countdown timers.

pub mod display;
pub mod interpreter;
pub mod keyboard;
pub mod memory;
pub mod stack;
pub mod timer;
