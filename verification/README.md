# subhook_rs

Inline function hooking for x86 (32 and 64 bit) and RISC-V (32 and 64 bit), with its logic
verified by Verus.

- `src/` is the verified library: the x86 instruction-length decoders (`x86::disasm` and the
  Zeex decoder in `zeex::disasm`), the RISC-V decoder, the jump thunks
  (`x86::jmp`, `riscv::jmp`), trampoline construction with relocation of PC-relative
  instructions (`x86::trampoline`, `riscv::trampoline`), the install/remove state of a hook
  (`x86::subhook`, `riscv::subhook`), `common::ScopedRemove`, the rules of the `#[hook]`
  attribute, the search for a trampoline buffer near the hooked function
  (`near_alloc`), the page range to unprotect (`pages`) and the error type with its messages.
  Address distances are computed as 64-bit two's-complement arithmetic does (`wrap`).
- `app/` performs what the library decides on live code: it reads and patches code memory,
  allocates executable buffers, moves suspended threads (Windows) and rewrites functions for
  the `#[hook]` attribute.

Each operation that writes code is split in two: `begin_install` / `begin_remove` say which
bytes to write, and `finish_install` / `finish_remove` record whether the write succeeded.
