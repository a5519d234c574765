//! A CHIP-8 machine: the processor with its memory, registers, stack, timers,
//! screen and keys, and what the loop that drives it has to decide.
//!
//! Every contract speaks of [`machine::Machine`], the state of the machine as
//! a mathematical value, and [`laws`] proves what holds of it in general.

pub mod chip8;
pub mod config;
pub mod cpu;
pub mod debugger;
pub mod draw;
pub mod error;
pub mod instruction;
pub mod laws;
pub mod machine;
pub mod ops;
pub mod ram;
pub mod rom_mgr;
pub mod text;
