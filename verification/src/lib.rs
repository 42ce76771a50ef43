//! A verified CHIP-8 virtual machine.
//!
//! The machine owns 4096 bytes of memory, sixteen 8-bit registers, a call
//! stack, two timers, a 64x32 monochrome screen and sixteen key latches.
//! `semantics` gives the mathematical model of one fetch-decode-execute
//! cycle; `machine` implements it and is verified against that model;
//! `laws` proves properties that relate several cycles.

pub mod decode;
pub mod font;
pub mod laws;
pub mod lemmas;
pub mod machine;
mod rng;
pub mod semantics;
