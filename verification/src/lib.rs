//! An interpreter core for the CHIP-8 virtual machine.
//!
//! The machine is a [`machine::CPU`]: 4096 bytes of memory, sixteen 8-bit
//! registers, an index register, a program counter, a call stack, two countdown
//! timers, a 64 by 32 monochrome framebuffer and a sixteen-key keypad. A driver
//! loads a program with [`machine::CPU::load_program`], then calls
//! [`machine::CPU::execute_cycle`] (or `try_execute_cycle`) and
//! [`machine::CPU::decrement_timers`] at the pace it likes, writes the keypad
//! state into the machine and reads the framebuffer and the sound timer out of it.
//!
//! Every contract speaks of the [`machine::Machine`] that a `CPU` stands for, and
//! of the functions on it that say what each instruction does. `laws` holds what
//! follows from them.

pub mod machine;
pub mod font;
pub mod loader;
pub mod timers;
pub mod decode;
pub mod rng;
pub mod alu;
pub mod control;
pub mod index;
pub mod keypad;
pub mod display;
pub mod cycle;
pub mod laws;
