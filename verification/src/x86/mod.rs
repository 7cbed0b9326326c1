//! x86 / x86-64 support: instruction decoding, jump thunks, trampolines and hook state.

pub mod decode;
pub mod disasm;
pub mod hookflags;
pub mod jmp;
pub mod trampoline;
pub mod subhook;
