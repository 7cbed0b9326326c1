//! Building the trampoline of an x86 hook: the instructions that the jump thunk overwrites are
//! copied to the trampoline buffer, their relative operands re-targeted, short jumps widened,
//! and a jump back to the rest of the original function appended.

use vstd::prelude::*;
use crate::bytes::{le_u32, lemma_prepend_assoc, prepend, push_le_u32, u32_at};
use crate::error::HookError;
use crate::x86::decode::MAX_DECODED_LEN;
use crate::x86::disasm::{disasm, lemma_disasm_len, spec_disasm, RelocHint};
use crate::x86::jmp::{
    encode_jmp, spec_jmp_size, spec_tail_jmp, spec_tail_jmp_size, tail_flags, tail_jmp_size,
    JMP64_SIZE,
};
use crate::x86::hookflags::HookFlags;
use crate::wrap::{lemma_wrap_i64, modulus_64, wrap_i64, wrap_to_i64, wrap_to_usize, wrap_usize};

verus! {

/// Length of the window of original code handed to the decoder for each instruction.
pub const MAX_INSTRUCTION_LEN: usize = 15;

/// Extra bytes reserved in the trampoline buffer to absorb short-jump expansions.
pub const EXPAND_BUDGET: usize = 64;

/// Number of bytes of the original function that `build_trampoline` needs to see beyond the
/// `jmp_size` bytes that the thunk overwrites: the last instruction it copies starts within
/// them, and the decoder sees `MAX_INSTRUCTION_LEN` bytes from there.
pub const PROLOGUE_SLACK: usize = 14;

/// Largest number of bytes the thunk may overwrite for `build_trampoline`.
pub const MAX_PATCH_LEN: usize = 64;

/// Room that `build_trampoline` needs above the trampoline buffer's address.
pub const BUFFER_ROOM: usize = 4096;

/// Size of the trampoline buffer to allocate for a thunk of `jmp_size` bytes.
pub open spec fn spec_trampoline_size(jmp_size: usize) -> int {
    jmp_size + MAX_INSTRUCTION_LEN + spec_tail_jmp_size() + EXPAND_BUDGET
}

/// `s` with the four bytes at `k` replaced by the little-endian bytes of `v`, cut back to the
/// length of `s`; `s` is read as if followed by zero bytes.
pub open spec fn patch_u32(s: Seq<u8>, k: int, v: u32) -> Seq<u8> {
    let padded = s + seq![0u8, 0u8, 0u8, 0u8];
    (padded.subrange(0, k) + le_u32(v) + padded.subrange(k + 4, padded.len() as int)).subrange(
        0,
        s.len() as int,
    )
}

/// The rel32 operand at `k` of the instruction bytes `insn`, read as if followed by zero bytes.
pub open spec fn operand_at(insn: Seq<u8>, k: int) -> i32 {
    u32_at(insn + seq![0u8, 0u8, 0u8, 0u8], k) as i32
}

/// Where the short jump of `len` bytes at offset `orig` of the original code lands: its
/// displacement is its last byte, counted from its end, and address arithmetic wraps around the
/// address space.
pub open spec fn short_target(code: Seq<u8>, src: usize, orig: int, len: int) -> int {
    wrap_usize(src + orig + len + (code[orig + len - 1] as i8))
}

/// The bytes that replace the instruction of length `len` at `orig` in the original code when it
/// is placed at offset `off` of the trampoline buffer.
#[verifier::opaque]
pub open spec fn spec_relocate_insn(
    code: Seq<u8>,
    src: usize,
    buf: usize,
    orig: int,
    off: int,
    len: int,
    hint: Option<RelocHint>,
) -> Result<Seq<u8>, HookError> {
    let insn = code.subrange(orig, orig + len);
    match hint {
        None => Ok(insn),
        Some(RelocHint::I32(k)) => if k > 0 {
            let shift = wrap_i64((buf + off) - (src + orig));
            let new = operand_at(insn, k as int) - shift;
            if shift < i32::MIN || shift > i32::MAX {
                Err(HookError::TrampolineRelocateOverflow(shift as i64))
            } else if new < i32::MIN || new > i32::MAX {
                Err(HookError::TrampolineRelocateOverflow(new as i64))
            } else {
                Ok(patch_u32(insn, k as int, (new as i32) as u32))
            }
        } else {
            Ok(insn)
        },
        Some(RelocHint::ShortJcc(opcode)) => {
            let disp = wrap_i64(short_target(code, src, orig, len) - (buf + off + 6));
            if disp < i32::MIN || disp > i32::MAX {
                Err(HookError::TrampolineRelocateOverflow(disp as i64))
            } else {
                Ok(seq![0x0Fu8, 0x80u8 | (opcode & 0x0Fu8)] + le_u32((disp as i32) as u32))
            }
        },
        Some(RelocHint::ShortJmp) => {
            let disp = wrap_i64(short_target(code, src, orig, len) - (buf + off + 5));
            if disp < i32::MIN || disp > i32::MAX {
                Err(HookError::TrampolineRelocateOverflow(disp as i64))
            } else {
                Ok(seq![0xE9u8] + le_u32((disp as i32) as u32))
            }
        },
    }
}

/// The trampoline bytes produced from the instruction at `orig` of the original code onward,
/// the trampoline having `off` bytes so far.
pub open spec fn spec_relocate_from(
    code: Seq<u8>,
    src: usize,
    buf: usize,
    jmp_size: int,
    orig: int,
    off: int,
) -> Result<Seq<u8>, HookError>
    decreases (if orig < jmp_size {
        jmp_size - orig
    } else {
        0
    }),
{
    if orig >= jmp_size {
        // jump back to the first instruction that was not copied
        spec_tail_jmp((buf + off) as usize, (src + orig) as usize)
    } else {
        match spec_disasm(code.subrange(orig, orig + MAX_INSTRUCTION_LEN)) {
            Err(e) => Err(e),
            Ok((len, hint)) => if orig + len > code.len() {
                // the instruction reaches past the bytes at hand
                Err(HookError::TruncatedInstruction)
            } else {
                match spec_relocate_insn(code, src, buf, orig, off, len as int, hint) {
                Err(e) => Err(e),
                Ok(bytes) => {
                    proof {
                        lemma_disasm_len(code.subrange(orig, orig + MAX_INSTRUCTION_LEN));
                    }
                    prepend(
                        bytes,
                        spec_relocate_from(code, src, buf, jmp_size, orig + len, off + bytes.len()),
                    )
                },
                }
            },
        }
    }
}

/// The contents of the trampoline built at `buf` for a hook at `src` whose thunk overwrites
/// `jmp_size` bytes; `code` holds the original bytes starting at `src`.
pub open spec fn spec_build_trampoline(code: Seq<u8>, src: usize, buf: usize, jmp_size: int) -> Result<Seq<u8>, HookError> {
    spec_relocate_from(code, src, buf, jmp_size, 0, 0)
}

/// Size of the trampoline buffer to allocate for a thunk of `jmp_size` bytes.
pub fn trampoline_size(jmp_size: usize) -> (r: usize)
    requires
        jmp_size <= MAX_PATCH_LEN,
    ensures
        r == spec_trampoline_size(jmp_size),
{
    jmp_size + MAX_INSTRUCTION_LEN + tail_jmp_size() + EXPAND_BUDGET
}

/// The bytes that replace one instruction of the original code in the trampoline, see
/// `spec_relocate_insn`.
fn relocate_insn(
    code: &[u8],
    src: usize,
    buf: usize,
    orig: usize,
    off: usize,
    len: usize,
    hint: Option<RelocHint>,
) -> (r: Result<Vec<u8>, HookError>)
    requires
        orig + len <= code@.len(),
        orig + 2 <= code@.len(),
        1 <= len <= MAX_DECODED_LEN,
        hint matches Some(RelocHint::I32(k)) ==> k <= len,
        src + code@.len() <= usize::MAX,
        buf + off + 6 <= usize::MAX,
    ensures
        match r {
            Ok(v) => spec_relocate_insn(code@, src, buf, orig as int, off as int, len as int, hint)
                == Ok::<Seq<u8>, HookError>(v@),
            Err(e) => spec_relocate_insn(code@, src, buf, orig as int, off as int, len as int, hint)
                == Err::<Seq<u8>, HookError>(e),
        },
        r matches Ok(v) ==> v@.len() <= MAX_DECODED_LEN,
{
    reveal(spec_relocate_insn);
    let insn = &code[orig..orig + len];
    match hint {
        None => Ok(vstd::slice::slice_to_vec(insn)),
        Some(RelocHint::I32(k)) => {
            if k > 0 {
                let shift = wrap_to_i64((buf as i128 + off as i128) - (src as i128 + orig as i128));
                if shift < i32::MIN as i64 || shift > i32::MAX as i64 {
                    return Err(HookError::TrampolineRelocateOverflow(shift));
                }
                let mut padded = vstd::slice::slice_to_vec(insn);
                padded.push(0);
                padded.push(0);
                padded.push(0);
                padded.push(0);
                let ghost p0 = padded@;
                assert(p0 =~= insn@ + seq![0u8, 0u8, 0u8, 0u8]);
                let old_value = crate::bytes::read_le_u32(padded.as_slice(), k) as i32;
                let moved = old_value as i64 - shift;
                if moved < i32::MIN as i64 || moved > i32::MAX as i64 {
                    return Err(HookError::TrampolineRelocateOverflow(moved));
                }
                let new_value = (moved as i32) as u32;
                let mut out: Vec<u8> = Vec::new();
                let mut i: usize = 0;
                while i < k
                    invariant
                        i <= k,
                        k <= len,
                        padded@ == p0,
                        p0.len() == len + 4,
                        out@ =~= p0.subrange(0, i as int),
                    decreases k - i,
                {
                    out.push(padded[i]);
                    i = i + 1;
                }
                push_le_u32(&mut out, new_value);
                let mut j: usize = k + 4;
                while j < len + 4
                    invariant
                        len <= MAX_DECODED_LEN,
                        k + 4 <= j <= len + 4,
                        padded@ == p0,
                        p0.len() == len + 4,
                        out@ =~= p0.subrange(0, k as int) + le_u32(new_value) + p0.subrange(
                            k + 4,
                            j as int,
                        ),
                    decreases len + 4 - j,
                {
                    out.push(padded[j]);
                    j = j + 1;
                }
                out.truncate(len);
                assert(out@ =~= patch_u32(insn@, k as int, new_value));
                Ok(out)
            } else {
                Ok(vstd::slice::slice_to_vec(insn))
            }
        },
        Some(RelocHint::ShortJcc(opcode)) => {
            let disp8 = code[orig + len - 1] as i8;
            let abs_target = wrap_to_usize(
                src as i128 + orig as i128 + len as i128 + disp8 as i128,
            );
            let new_disp = wrap_to_i64(abs_target as i128 - (buf as i128 + off as i128 + 6));
            if new_disp < i32::MIN as i64 || new_disp > i32::MAX as i64 {
                return Err(HookError::TrampolineRelocateOverflow(new_disp));
            }
            let mut out: Vec<u8> = Vec::new();
            out.push(0x0F);
            out.push(0x80 | (opcode & 0x0F));
            push_le_u32(&mut out, (new_disp as i32) as u32);
            assert(out@ =~= seq![0x0Fu8, 0x80u8 | (opcode & 0x0Fu8)] + le_u32(
                (new_disp as i32) as u32,
            ));
            Ok(out)
        },
        Some(RelocHint::ShortJmp) => {
            let disp8 = code[orig + len - 1] as i8;
            let abs_target = wrap_to_usize(
                src as i128 + orig as i128 + len as i128 + disp8 as i128,
            );
            let new_disp = wrap_to_i64(abs_target as i128 - (buf as i128 + off as i128 + 5));
            if new_disp < i32::MIN as i64 || new_disp > i32::MAX as i64 {
                return Err(HookError::TrampolineRelocateOverflow(new_disp));
            }
            let mut out: Vec<u8> = Vec::new();
            out.push(0xE9);
            push_le_u32(&mut out, (new_disp as i32) as u32);
            assert(out@ =~= seq![0xE9u8] + le_u32((new_disp as i32) as u32));
            Ok(out)
        },
    }
}

/// Builds the trampoline for a hook at `src_addr` whose thunk overwrites `jmp_size` bytes, the
/// trampoline to be placed at `buffer_addr`. `code` holds the original bytes from `src_addr`
/// on. Returns the bytes to write to the trampoline buffer.
pub fn build_trampoline(code: &[u8], src_addr: usize, buffer_addr: usize, jmp_size: usize) -> (r:
    Result<Vec<u8>, HookError>)
    requires
        jmp_size <= MAX_PATCH_LEN,
        code@.len() >= jmp_size + PROLOGUE_SLACK,
        src_addr + code@.len() <= usize::MAX,
        buffer_addr + BUFFER_ROOM <= usize::MAX,
    ensures
        match r {
            Ok(v) => spec_build_trampoline(code@, src_addr, buffer_addr, jmp_size as int) == Ok::<
                Seq<u8>,
                HookError,
            >(v@),
            Err(e) => spec_build_trampoline(code@, src_addr, buffer_addr, jmp_size as int) == Err::<
                Seq<u8>,
                HookError,
            >(e),
        },
        jmp_size <= JMP64_SIZE ==> (r matches Ok(v) ==> v@.len() <= spec_trampoline_size(jmp_size)),
{
    let mut out: Vec<u8> = Vec::new();
    let mut orig: usize = 0;
    while orig < jmp_size
        invariant
            jmp_size <= MAX_PATCH_LEN,
            code@.len() >= jmp_size + PROLOGUE_SLACK,
            src_addr + code@.len() <= usize::MAX,
            buffer_addr + BUFFER_ROOM <= usize::MAX,
            orig < jmp_size + MAX_DECODED_LEN,
            orig <= code@.len(),
            out@.len() <= MAX_DECODED_LEN * orig,
            out@.len() <= MAX_DECODED_LEN * jmp_size,
            spec_build_trampoline(code@, src_addr, buffer_addr, jmp_size as int) == prepend(
                out@,
                spec_relocate_from(
                    code@,
                    src_addr,
                    buffer_addr,
                    jmp_size as int,
                    orig as int,
                    out@.len() as int,
                ),
            ),
        decreases (if orig < jmp_size {
            jmp_size - orig
        } else {
            0
        }),
    {
        let window = &code[orig..orig + MAX_INSTRUCTION_LEN];
        proof {
            lemma_disasm_len(window@);
        }
        let (instruction_len, reloc) = disasm(window)?;
        if orig + instruction_len > code.len() {
            return Err(HookError::TruncatedInstruction);
        }
        let bytes = relocate_insn(
            code,
            src_addr,
            buffer_addr,
            orig,
            out.len(),
            instruction_len,
            reloc,
        )?;
        let ghost before = out@;
        let mut k: usize = 0;
        while k < bytes.len()
            invariant
                k <= bytes@.len(),
                out@ =~= before + bytes@.subrange(0, k as int),
            decreases bytes@.len() - k,
        {
            out.push(bytes[k]);
            k = k + 1;
        }
        assert(out@ =~= before + bytes@);
        proof {
            lemma_prepend_assoc(
                before,
                bytes@,
                spec_relocate_from(
                    code@,
                    src_addr,
                    buffer_addr,
                    jmp_size as int,
                    (orig + instruction_len) as int,
                    out@.len() as int,
                ),
            );
        }
        orig = orig + instruction_len;
    }
    // jump back to the rest of the original function
    let tail_src = buffer_addr + out.len();
    let tail_dst = src_addr + orig;
    let flags = tail_flags();
    let tail = match encode_jmp(tail_src, tail_dst, flags) {
        Ok(t) => t,
        Err(e) => return Err(e),
    };
    let ghost before = out@;
    let mut k: usize = 0;
    while k < tail.len()
        invariant
            k <= tail@.len(),
            out@ =~= before + tail@.subrange(0, k as int),
        decreases tail@.len() - k,
    {
        out.push(tail[k]);
        k = k + 1;
    }
    assert(out@ =~= before + tail@);
    proof {
        lemma_relocate_from_len(code@, src_addr, buffer_addr, jmp_size as int, 0, 0);
    }
    Ok(out)
}

/// Building a trampoline fails with the decoder's error when the first instruction of the
/// original function cannot be decoded, e.g. `UnknownInstruction` for an unknown opcode.
pub proof fn lemma_trampoline_decoder_error(code: Seq<u8>, src: usize, buf: usize, jmp_size: int)
    requires
        0 < jmp_size,
        spec_disasm(code.subrange(0, MAX_INSTRUCTION_LEN as int)) is Err,
    ensures
        spec_build_trampoline(code, src, buf, jmp_size) == Err::<Seq<u8>, HookError>(
            spec_disasm(code.subrange(0, MAX_INSTRUCTION_LEN as int))->Err_0,
        ),
{
}

/// A rel32 operand copied into the trampoline still designates the same absolute address: the
/// copied operand plus the copy's address equals the old operand plus the instruction's old
/// address modulo 2^64 (the processor adds the sign-extended operand to the address after the
/// instruction, which moved by the same distance), and every other byte of the instruction is
/// copied unchanged.
pub proof fn lemma_rel32_target_kept(
    code: Seq<u8>,
    src: usize,
    buf: usize,
    orig: int,
    off: int,
    len: int,
    k: usize,
)
    requires
        0 <= orig,
        orig + len <= code.len(),
        0 < k,
        k + 4 <= len,
        spec_relocate_insn(code, src, buf, orig, off, len, Some(RelocHint::I32(k))) is Ok,
    ensures
        ({
            let insn = code.subrange(orig, orig + len);
            let t = spec_relocate_insn(code, src, buf, orig, off, len, Some(RelocHint::I32(k)))->Ok_0;
            &&& t.len() == len
            &&& (operand_at(t, k as int) + (buf + off)) % modulus_64() == (operand_at(insn, k as int)
                + (src + orig)) % modulus_64()
            &&& forall|i: int| 0 <= i < len && !(k <= i < k + 4) ==> t[i] == insn[i]
        }),
{
    reveal(spec_relocate_insn);
    let insn = code.subrange(orig, orig + len);
    let moved = (buf + off) - (src + orig);
    let shift = wrap_i64(moved);
    let old = operand_at(insn, k as int);
    let new = (old - shift) as i32;
    let t = patch_u32(insn, k as int, new as u32);
    let padded = insn + seq![0u8, 0u8, 0u8, 0u8];
    assert(t.subrange(k as int, k + 4) =~= le_u32(new as u32));
    crate::bytes::lemma_le_u32_roundtrip(new as u32);
    crate::bytes::lemma_i32_bits_roundtrip(new);
    assert(u32_at(t + seq![0u8, 0u8, 0u8, 0u8], k as int) == u32_at(le_u32(new as u32), 0));
    assert(operand_at(t, k as int) == new);
    // `shift` is the distance moved up to a multiple of 2^64
    let a = old + (src + orig);
    lemma_wrap_i64(a - shift, moved);
    assert(new + (buf + off) == (a - shift) + moved);
}

/// A short jump widened in the trampoline lands exactly where the original one did, the
/// processor adding the displacement to the address after the jump modulo 2^64.
pub proof fn lemma_short_jump_target_kept(
    code: Seq<u8>,
    src: usize,
    buf: usize,
    orig: int,
    off: int,
    len: int,
    hint: Option<RelocHint>,
)
    requires
        hint matches Some(RelocHint::ShortJcc(_)) || hint matches Some(RelocHint::ShortJmp),
        spec_relocate_insn(code, src, buf, orig, off, len, hint) is Ok,
    ensures
        ({
            let t = spec_relocate_insn(code, src, buf, orig, off, len, hint)->Ok_0;
            let wide = if hint matches Some(RelocHint::ShortJcc(_)) {
                6int
            } else {
                5int
            };
            &&& t.len() == wide
            &&& (buf + off + wide + (u32_at(t, wide - 4) as i32)) % modulus_64() == short_target(
                code,
                src,
                orig,
                len,
            )
            &&& (hint matches Some(RelocHint::ShortJcc(op)) ==> t[0] == 0x0Fu8 && t[1] == 0x80u8
                | (op & 0x0Fu8))
            &&& (hint matches Some(RelocHint::ShortJmp) ==> t[0] == 0xE9u8)
        }),
{
    reveal(spec_relocate_insn);
    let wide = if hint matches Some(RelocHint::ShortJcc(_)) {
        6int
    } else {
        5int
    };
    let target = short_target(code, src, orig, len);
    let disp = wrap_i64(target - (buf + off + wide));
    let d = disp as i32;
    lemma_wrap_i64(buf + off + wide, target - (buf + off + wide));
    vstd::arithmetic::div_mod::lemma_small_mod(target as nat, modulus_64() as nat);
    let t = spec_relocate_insn(code, src, buf, orig, off, len, hint)->Ok_0;
    crate::bytes::lemma_le_u32_roundtrip(d as u32);
    crate::bytes::lemma_i32_bits_roundtrip(d);
    assert(t.subrange(wide - 4, wide) =~= le_u32(d as u32));
    assert(u32_at(t, wide - 4) == u32_at(le_u32(d as u32), 0));
}

/// An instruction of `len` bytes takes at most three times as many bytes in the trampoline (a
/// two-byte short jump grows to five or six), and never more than `MAX_DECODED_LEN`.
proof fn lemma_relocate_insn_len(
    code: Seq<u8>,
    src: usize,
    buf: usize,
    orig: int,
    off: int,
    len: int,
    hint: Option<RelocHint>,
)
    requires
        0 <= orig,
        orig + len <= code.len(),
        1 <= len <= MAX_DECODED_LEN,
        hint matches Some(RelocHint::I32(k)) ==> 1 <= k <= len,
        hint matches Some(RelocHint::ShortJcc(_)) ==> 2 <= len,
        hint matches Some(RelocHint::ShortJmp) ==> 2 <= len,
        spec_relocate_insn(code, src, buf, orig, off, len, hint) is Ok,
    ensures
        spec_relocate_insn(code, src, buf, orig, off, len, hint)->Ok_0.len() <= 3 * len,
        spec_relocate_insn(code, src, buf, orig, off, len, hint)->Ok_0.len() <= MAX_DECODED_LEN,
{
    reveal(spec_relocate_insn);
}

/// Bound on the bytes produced from the instruction at `orig` onward: at most three times the
/// bytes still to copy before the last instruction, that instruction, and the jump back.
proof fn lemma_relocate_from_len(
    code: Seq<u8>,
    src: usize,
    buf: usize,
    jmp_size: int,
    orig: int,
    off: int,
)
    requires
        0 <= orig,
        code.len() >= jmp_size + PROLOGUE_SLACK,
        spec_relocate_from(code, src, buf, jmp_size, orig, off) is Ok,
    ensures
        spec_relocate_from(code, src, buf, jmp_size, orig, off)->Ok_0.len() <= if orig < jmp_size {
            3 * (jmp_size - 1 - orig) + MAX_DECODED_LEN + spec_tail_jmp_size()
        } else {
            spec_tail_jmp_size() as int
        },
    decreases (if orig < jmp_size {
        jmp_size - orig
    } else {
        0
    }),
{
    if orig < jmp_size {
        let window = code.subrange(orig, orig + MAX_INSTRUCTION_LEN);
        lemma_disasm_len(window);
        let (len, hint) = spec_disasm(window)->Ok_0;
        lemma_relocate_insn_len(code, src, buf, orig, off, len as int, hint);
        let bytes = spec_relocate_insn(code, src, buf, orig, off, len as int, hint)->Ok_0;
        lemma_relocate_from_len(code, src, buf, jmp_size, orig + len, off + bytes.len());
    }
}

/// The trampoline built for the thunk that any flags select fits in the buffer of
/// `trampoline_size` bytes allocated for it: short jumps, which grow when relocated, are at
/// least two bytes long, and the budget covers their growth.
pub proof fn lemma_trampoline_fits(code: Seq<u8>, src: usize, buf: usize, flags: HookFlags)
    requires
        code.len() >= spec_jmp_size(flags) + PROLOGUE_SLACK,
        spec_build_trampoline(code, src, buf, spec_jmp_size(flags) as int) is Ok,
    ensures
        spec_build_trampoline(code, src, buf, spec_jmp_size(flags) as int)->Ok_0.len()
            <= spec_trampoline_size(spec_jmp_size(flags)),
{
    lemma_relocate_from_len(code, src, buf, spec_jmp_size(flags) as int, 0, 0);
}

/// A tail jump that can be encoded is `spec_tail_jmp_size()` bytes long.
proof fn lemma_tail_jmp_len(at: usize, to: usize)
    ensures
        spec_tail_jmp(at, to) matches Ok(t) ==> t.len() == spec_tail_jmp_size(),
{
}

/// Whether the bytes `t`, placed at `at`, end with the tail jump to `addr`.
pub open spec fn ends_with_jump_to(t: Seq<u8>, at: int, addr: usize) -> bool {
    let k = t.len() - spec_tail_jmp_size();
    &&& k >= 0
    &&& spec_tail_jmp((at + k) as usize, addr) == Ok::<Seq<u8>, HookError>(
        t.subrange(k, t.len() as int),
    )
}

/// A trampoline ends with a jump back into the original function, to the first instruction
/// that the thunk did not overwrite: at least `jmp_size` and less than `jmp_size +
/// MAX_DECODED_LEN` bytes past `src`.
pub proof fn lemma_trampoline_resumes_original(code: Seq<u8>, src: usize, buf: usize, jmp_size: int)
    requires
        0 <= jmp_size,
        spec_build_trampoline(code, src, buf, jmp_size) is Ok,
    ensures
        exists|n: int|
            jmp_size <= n < jmp_size + MAX_DECODED_LEN && #[trigger] ends_with_jump_to(
                spec_build_trampoline(code, src, buf, jmp_size)->Ok_0,
                buf as int,
                (src + n) as usize,
            ),
{
    lemma_relocate_from_resumes(code, src, buf, jmp_size, 0, 0);
}

proof fn lemma_relocate_from_resumes(
    code: Seq<u8>,
    src: usize,
    buf: usize,
    jmp_size: int,
    orig: int,
    off: int,
)
    requires
        0 <= orig < jmp_size + MAX_DECODED_LEN,
        spec_relocate_from(code, src, buf, jmp_size, orig, off) is Ok,
    ensures
        exists|n: int|
            jmp_size <= n < jmp_size + MAX_DECODED_LEN && orig <= n && #[trigger] ends_with_jump_to(
                spec_relocate_from(code, src, buf, jmp_size, orig, off)->Ok_0,
                buf + off,
                (src + n) as usize,
            ),
    decreases (if orig < jmp_size {
        jmp_size - orig
    } else {
        0
    }),
{
    let r = spec_relocate_from(code, src, buf, jmp_size, orig, off);
    if orig >= jmp_size {
        let t = r->Ok_0;
        lemma_tail_jmp_len((buf + off) as usize, (src + orig) as usize);
        assert(t.subrange(0, t.len() as int) =~= t);
        assert(ends_with_jump_to(t, buf + off, (src + orig) as usize));
    } else {
        let window = code.subrange(orig, orig + MAX_INSTRUCTION_LEN);
        lemma_disasm_len(window);
        let (len, hint) = spec_disasm(window)->Ok_0;
        let bytes = spec_relocate_insn(code, src, buf, orig, off, len as int, hint)->Ok_0;
        let rest = spec_relocate_from(code, src, buf, jmp_size, orig + len, off + bytes.len());
        lemma_relocate_from_resumes(code, src, buf, jmp_size, orig + len, off + bytes.len());
        let n = choose|n: int|
            jmp_size <= n < jmp_size + MAX_DECODED_LEN && orig + len <= n && #[trigger] ends_with_jump_to(
                rest->Ok_0,
                buf + off + bytes.len(),
                (src + n) as usize,
            );
        let t = r->Ok_0;
        let rt = rest->Ok_0;
        let ts = spec_tail_jmp_size() as int;
        assert(t == bytes + rt);
        assert(t.subrange(t.len() - ts, t.len() as int) =~= rt.subrange(
            rt.len() - ts,
            rt.len() as int,
        ));
        assert(ends_with_jump_to(t, buf + off, (src + n) as usize));
    }
}

} // verus!
