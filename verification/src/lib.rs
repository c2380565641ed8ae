//! An interpreter for the CHIP-8 virtual machine.
//!
//! [`Cpu`] is the machine. The host loads a program into it, calls
//! [`Cpu::step`] once per cycle and [`Cpu::tick_clock`] at 60 Hz, hands it
//! the state of the keypad, and renders its frame buffer. What every
//! operation does is stated over [`machine::Machine`], the mathematical
//! state of the machine, in [`semantics`]; [`laws`] holds what follows for
//! every program.

pub mod cpu;
pub mod display;
mod entropy;
pub mod error;
pub mod font;
pub mod instruction;
pub mod laws;
pub mod machine;
pub mod semantics;
pub mod timers;
pub mod utils;

pub use crate::cpu::Cpu;
pub use crate::error::CpuError;
pub use crate::instruction::Instruction;
