//! Inline function hooking for x86 (32 and 64 bit) and RISC-V: instruction-length
//! decoding, jump encoding, trampoline relocation and the install/remove state of a hook.

pub mod error;
pub mod bytes;
pub mod wrap;
pub mod x86;
pub mod zeex;
pub mod riscv;
pub mod common;
pub mod hook_attr;
pub mod near_alloc;
pub mod pages;
