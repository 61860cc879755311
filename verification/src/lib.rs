//! A CHIP-8 virtual machine, verified with Verus.
//!
//! CHIP-8 is an interpreted 8-bit instruction set: 4 KiB of memory, sixteen
//! registers, a call stack, a 64x32 monochrome frame, a pad of sixteen keys
//! and two timers that count down sixty times a second.
//!
//! - [`instruction`] decodes a 16-bit instruction word into its operands.
//! - [`semantics`] says what the machine is and what each instruction does to
//!   it, in mathematics; [`theorems`] holds what follows from that.
//! - [`chip8`] is the machine itself, proved to do what [`semantics`] says;
//!   [`drawing`] holds the proof for the drawing of sprites.
//! - [`emulator`] is the host side: one cycle of the loop that polls the
//!   input, runs an instruction, ticks the timers and feeds the outputs.
//! - [`driver`] and [`io_controller`] are the peripherals as the host sees
//!   them.
//! - [`display`], [`keypad`], [`stack`] and [`random`] hold what the machine
//!   keeps in, or takes from, other crates. They are trusted, not verified.
pub mod chip8;
pub mod display;
pub mod drawing;
pub mod driver;
pub mod emulator;
pub mod instruction;
pub mod io_controller;
pub mod keypad;
pub mod random;
pub mod semantics;
pub mod stack;
pub mod theorems;
