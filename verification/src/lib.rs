//! The core of an emulator of the Apollo Guidance Computer (Block II) that
//! works at the level of the control pulses of each time pulse.
//!
//! - `word`: words of up to sixteen bits,
//! - `memory`: erasable and fixed storage, and the loader of fixed-memory
//!   images,
//! - `cpu`: the registers, the subinstructions with their control pulses, and
//!   the engine that executes them.

pub mod cpu;
pub mod memory;
pub mod word;
