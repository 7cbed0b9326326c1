//! RISC-V (32 and 64 bit) support: instruction decoding with compressed instructions, jump
//! thunks, trampolines with PC-relative relocation, and hook state.

pub mod disasm;
pub mod hookflags;

pub mod jmp;
pub mod trampoline;
pub mod subhook;
