//! The Zeex x86-64 layout: its decoder, with the flags and jump thunks shared with the `x86`
//! module.

pub mod disasm;

