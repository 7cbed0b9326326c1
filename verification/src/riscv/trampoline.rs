//! Building the trampoline of a RISC-V hook: the instructions that the jump thunk overwrites
//! are copied to the trampoline buffer at the same offsets, the 32-bit PC-relative ones (AUIPC,
//! JAL, branches) re-targeted, and a jump back to the rest of the original function appended.
//! A compressed jump or branch cannot reach its target from the trampoline and is refused.

use vstd::prelude::*;
use crate::bytes::{le_u32, lemma_prepend_assoc, prepend, push_le_u32, read_le_u32, u32_at};
use crate::error::HookError;
use crate::riscv::disasm::{
    compressed_is_pc_relative, disasm, halfword, lemma_disasm_pc_relative, spec_disasm, QUADRANT_C1,
};
use crate::riscv::jmp::{encode_jmp, j_imm, spec_encode_jmp, tail_flags, u_imm, JMP_SIZE};
use crate::wrap::{address_space, lemma_wrap_isize, wrap_isize, wrap_to_isize};

verus! {

/// Length of the window of original code handed to the decoder for each instruction.
pub const MAX_INSTRUCTION_LEN: usize = 4;

/// Largest number of bytes the thunk may overwrite for `build_trampoline`.
pub const MAX_PATCH_LEN: usize = 64;

/// Room that `build_trampoline` needs above the trampoline buffer's address.
pub const BUFFER_ROOM: usize = 4096;

/// Size of the trampoline buffer to allocate for a thunk of `jmp_size` bytes.
pub open spec fn spec_trampoline_size(jmp_size: usize) -> int {
    jmp_size + MAX_INSTRUCTION_LEN + JMP_SIZE
}

/// The sign-extended B-type (branch) immediate of `insn`.
pub open spec fn b_imm(insn: u32) -> i32 {
    let imm_12 = ((insn >> 31u32) & 1u32) as i32;
    let imm_10_5 = ((insn >> 25u32) & 0x3Fu32) as i32;
    let imm_4_1 = ((insn >> 8u32) & 0xFu32) as i32;
    let imm_11 = ((insn >> 7u32) & 1u32) as i32;
    let off = (imm_12 << 12i32) | (imm_11 << 11i32) | (imm_10_5 << 5i32) | (imm_4_1 << 1i32);
    if off & (1i32 << 12i32) != 0 {
        off | !0x1FFFi32
    } else {
        off
    }
}

/// The branch `insn` with its B-type immediate replaced by `off` (bit 0 dropped); its
/// registers, condition and opcode are kept.
pub open spec fn with_b_imm(insn: u32, off: i32) -> u32 {
    let imm_12 = ((off >> 12i32) & 1i32) as u32;
    let imm_10_5 = ((off >> 5i32) & 0x3Fi32) as u32;
    let imm_4_1 = ((off >> 1i32) & 0xFi32) as u32;
    let imm_11 = ((off >> 11i32) & 1i32) as u32;
    (insn & 0x1FF_F07Fu32) | (imm_12 << 31u32) | (imm_10_5 << 25u32) | (imm_4_1 << 8u32) | (imm_11
        << 7u32)
}

/// The JAL `insn` with its J-type immediate replaced by `off` (bit 0 dropped); its destination
/// register and opcode are kept.
pub open spec fn with_j_imm(insn: u32, off: i32) -> u32 {
    let imm_20 = ((off >> 20i32) & 1i32) as u32;
    let imm_10_1 = ((off >> 1i32) & 0x3FFi32) as u32;
    let imm_11 = ((off >> 11i32) & 1i32) as u32;
    let imm_19_12 = ((off >> 12i32) & 0xFFi32) as u32;
    (insn & 0xFFFu32) | (imm_20 << 31u32) | (imm_10_1 << 21u32) | (imm_11 << 20u32) | (imm_19_12
        << 12u32)
}

/// The AUIPC `insn` adding `v` (a multiple of 4096) instead; its destination register and
/// opcode are kept.
pub open spec fn with_u_imm(insn: u32, v: i32) -> u32 {
    (insn & 0xFFFu32) | ((v as u32) & 0xFFFF_F000u32)
}

/// The 32-bit instruction `insn` moved `shift` bytes forward, re-targeted so that it designates
/// the same address: the AUIPC, JAL or branch offset loses `shift`. Fails with
/// `TrampolineRelocateOverflow(shift)` where the new offset does not fit the instruction (or,
/// for an AUIPC, `shift` is not a multiple of 4096, or for a jump it is odd).
pub open spec fn spec_relocate_word(insn: u32, shift: int) -> Result<u32, HookError> {
    let opcode = insn & 0x7Fu32;
    if opcode == 0x17u32 {
        let v = u_imm(insn) - shift;
        if shift % 4096 != 0 || v < i32::MIN || v > i32::MAX {
            Err(HookError::TrampolineRelocateOverflow(shift as i64))
        } else {
            Ok(with_u_imm(insn, v as i32))
        }
    } else if opcode == 0x6Fu32 {
        let v = j_imm(insn) - shift;
        if v < -0x10_0000 || v >= 0x10_0000 || v % 2 != 0 {
            Err(HookError::TrampolineRelocateOverflow(shift as i64))
        } else {
            Ok(with_j_imm(insn, v as i32))
        }
    } else if opcode == 0x63u32 {
        let v = b_imm(insn) - shift;
        if v < -0x1000 || v >= 0x1000 || v % 2 != 0 {
            Err(HookError::TrampolineRelocateOverflow(shift as i64))
        } else {
            Ok(with_b_imm(insn, v as i32))
        }
    } else {
        Ok(insn)
    }
}

/// Whether the compressed instruction `insn` jumps or branches relative to its own address:
/// C.J, C.BEQZ, C.BNEZ and, on RV32, C.JAL (on RV64 that encoding is C.ADDIW).
pub open spec fn compressed_moves_target(insn: u16) -> bool {
    compressed_is_pc_relative(insn) && (((insn >> 13u16) & 0x7u16) != 1 || usize::BITS == 32)
}

/// The bytes that replace the instruction of length `len` at `orig` in the trampoline, which
/// lies `buf - src` bytes away from the original code.
pub open spec fn spec_relocate_insn(
    code: Seq<u8>,
    src: usize,
    buf: usize,
    orig: int,
    len: int,
    reloc: Option<usize>,
) -> Result<Seq<u8>, HookError> {
    let insn = code.subrange(orig, orig + len);
    let shift = wrap_isize(buf - src);
    if reloc is None {
        Ok(insn)
    } else if len == 2 {
        if compressed_moves_target(halfword(insn)) {
            Err(HookError::TrampolineRelocateOverflow(shift as i64))
        } else {
            Ok(insn)
        }
    } else {
        match spec_relocate_word(u32_at(insn, 0), shift) {
            Ok(w) => Ok(le_u32(w)),
            Err(e) => Err(e),
        }
    }
}

/// The trampoline bytes produced from the instruction at `orig` of the original code onward.
pub open spec fn spec_relocate_from(code: Seq<u8>, src: usize, buf: usize, jmp_size: int, orig: int) -> Result<Seq<u8>, HookError>
    decreases (if orig < jmp_size {
        jmp_size - orig
    } else {
        0
    }),
{
    if orig >= jmp_size {
        // jump back to the first instruction that was not copied
        spec_encode_jmp((buf + orig) as usize, (src + orig) as usize)
    } else {
        match spec_disasm(code.subrange(orig, orig + MAX_INSTRUCTION_LEN)) {
            Err(e) => Err(e),
            Ok((len, reloc)) => match spec_relocate_insn(code, src, buf, orig, len as int, reloc) {
                Err(e) => Err(e),
                Ok(bytes) => prepend(bytes, spec_relocate_from(code, src, buf, jmp_size, orig + len)),
            },
        }
    }
}

/// The contents of the trampoline built at `buf` for a hook at `src` whose thunk overwrites
/// `jmp_size` bytes; `code` holds the original bytes starting at `src`.
pub open spec fn spec_build_trampoline(code: Seq<u8>, src: usize, buf: usize, jmp_size: int) -> Result<Seq<u8>, HookError> {
    spec_relocate_from(code, src, buf, jmp_size, 0)
}

/// Where to place the trampoline in a buffer allocated at the 4 KiB-aligned `base` (with 4 KiB
/// to spare): at the offset within its page that `src` has, so that the trampoline lies a whole
/// number of pages from the original code and its AUIPC instructions can be relocated.
pub fn place_trampoline(base: usize, src: usize) -> (r: usize)
    requires
        base % 4096 == 0,
        base + 4096 <= usize::MAX,
    ensures
        r == base + src % 4096,
        (r - src) % 4096 == 0,
        wrap_isize(r - src) % 4096 == 0,
{
    let off = src & 0xFFF;
    assert(off == src % 4096) by (bit_vector)
        requires
            off == src & 0xFFF,
    ;
    let r = base + off;
    proof {
        let d = r - src;
        vstd::arithmetic::div_mod::lemma_fundamental_div_mod(src as int, 4096);
        vstd::arithmetic::div_mod::lemma_fundamental_div_mod(base as int, 4096);
        assert(d == 4096 * (base / 4096 - src / 4096));
        vstd::arithmetic::div_mod::lemma_mod_multiples_basic(base / 4096 - src / 4096, 4096);
        // the number of addresses is a multiple of 4096 as well
        let m = address_space();
        assert(m == 4096 * 0x10_0000 || m == 4096 * 0x10_0000_0000_0000);
        let k = if m == 4096 * 0x10_0000 {
            0x10_0000int
        } else {
            0x10_0000_0000_0000int
        };
        vstd::arithmetic::div_mod::lemma_fundamental_div_mod(d, m);
        let w = wrap_isize(d);
        let c: int = if d % m > isize::MAX {
            1
        } else {
            0
        };
        assert(w == d - m * (d / m) - c * m);
        assert(w == 4096 * ((base / 4096 - src / 4096) - k * (d / m) - c * k)) by (nonlinear_arith)
            requires
                w == d - m * (d / m) - c * m,
                d == 4096 * (base / 4096 - src / 4096),
                m == 4096 * k,
        ;
        vstd::arithmetic::div_mod::lemma_mod_multiples_basic(
            (base / 4096 - src / 4096) - k * (d / m) - c * k,
            4096,
        );
    }
    r
}

/// Size of the trampoline buffer to allocate for a thunk of `jmp_size` bytes.
pub fn trampoline_size(jmp_size: usize) -> (r: usize)
    requires
        jmp_size <= MAX_PATCH_LEN,
    ensures
        r == spec_trampoline_size(jmp_size),
{
    jmp_size + MAX_INSTRUCTION_LEN + JMP_SIZE
}

fn get_j_imm(insn: u32) -> (r: i32)
    ensures
        r == j_imm(insn),
{
    let imm_20 = ((insn >> 31) & 1) as i32;
    let imm_10_1 = ((insn >> 21) & 0x3FF) as i32;
    let imm_11 = ((insn >> 20) & 1) as i32;
    let imm_19_12 = ((insn >> 12) & 0xFF) as i32;
    let off = (imm_20 << 20) | (imm_19_12 << 12) | (imm_11 << 11) | (imm_10_1 << 1);
    if off & (1 << 20) != 0 {
        off | !0xFFFFF
    } else {
        off
    }
}

fn get_b_imm(insn: u32) -> (r: i32)
    ensures
        r == b_imm(insn),
{
    let imm_12 = ((insn >> 31) & 1) as i32;
    let imm_10_5 = ((insn >> 25) & 0x3F) as i32;
    let imm_4_1 = ((insn >> 8) & 0xF) as i32;
    let imm_11 = ((insn >> 7) & 1) as i32;
    let off = (imm_12 << 12) | (imm_11 << 11) | (imm_10_5 << 5) | (imm_4_1 << 1);
    if off & (1 << 12) != 0 {
        off | !0x1FFF
    } else {
        off
    }
}

fn set_j_imm(insn: u32, off: i32) -> (r: u32)
    ensures
        r == with_j_imm(insn, off),
{
    let imm_20 = ((off >> 20) & 1) as u32;
    let imm_10_1 = ((off >> 1) & 0x3FF) as u32;
    let imm_11 = ((off >> 11) & 1) as u32;
    let imm_19_12 = ((off >> 12) & 0xFF) as u32;
    (insn & 0xFFF) | (imm_20 << 31) | (imm_10_1 << 21) | (imm_11 << 20) | (imm_19_12 << 12)
}

fn set_b_imm(insn: u32, off: i32) -> (r: u32)
    ensures
        r == with_b_imm(insn, off),
{
    let imm_12 = ((off >> 12) & 1) as u32;
    let imm_10_5 = ((off >> 5) & 0x3F) as u32;
    let imm_4_1 = ((off >> 1) & 0xF) as u32;
    let imm_11 = ((off >> 11) & 1) as u32;
    (insn & 0x1FF_F07F) | (imm_12 << 31) | (imm_10_5 << 25) | (imm_4_1 << 8) | (imm_11 << 7)
}

/// Whether the offset `v` (within ±1 MiB) is even.
fn is_even(v: i64) -> (r: bool)
    requires
        -0x10_0000 <= v < 0x10_0000,
    ensures
        r == (v % 2 == 0),
{
    let x = v as i32;
    assert((x & 1 == 0) == (x % 2 == 0)) by (bit_vector);
    x & 1 == 0
}

/// The 32-bit instruction `insn` moved `shift` bytes, see `spec_relocate_word`.
fn relocate_word(insn: u32, shift: i64) -> (r: Result<u32, HookError>)
    ensures
        r == spec_relocate_word(insn, shift as int),
{
    let opcode = insn & 0x7F;
    if opcode == 0x17 {
        let u = (insn & 0xFFFF_F000) as i32;
        let v: i128 = u as i128 - shift as i128;
        let aligned = shift & 0xFFF == 0;
        assert((shift & 0xFFF == 0) == (shift % 4096 == 0)) by (bit_vector);
        if !aligned || v < i32::MIN as i128 || v > i32::MAX as i128 {
            return Err(HookError::TrampolineRelocateOverflow(shift));
        }
        let nv = v as i32;
        Ok((insn & 0xFFF) | ((nv as u32) & 0xFFFF_F000))
    } else if opcode == 0x6F {
        let v: i128 = get_j_imm(insn) as i128 - shift as i128;
        if v < -0x10_0000 || v >= 0x10_0000 || !is_even(v as i64) {
            return Err(HookError::TrampolineRelocateOverflow(shift));
        }
        Ok(set_j_imm(insn, v as i32))
    } else if opcode == 0x63 {
        let v: i128 = get_b_imm(insn) as i128 - shift as i128;
        if v < -0x1000 || v >= 0x1000 || !is_even(v as i64) {
            return Err(HookError::TrampolineRelocateOverflow(shift));
        }
        Ok(set_b_imm(insn, v as i32))
    } else {
        Ok(insn)
    }
}

/// The bytes that replace one instruction of the original code in the trampoline, see
/// `spec_relocate_insn`.
fn relocate_insn(code: &[u8], src: usize, buf: usize, orig: usize, len: usize, reloc: Option<usize>) -> (r: Result<Vec<u8>, HookError>)
    requires
        orig + len <= code@.len(),
        code@.len() <= usize::MAX,
        len == 2 || len == 4,
    ensures
        match r {
            Ok(v) => spec_relocate_insn(code@, src, buf, orig as int, len as int, reloc) == Ok::<
                Seq<u8>,
                HookError,
            >(v@),
            Err(e) => spec_relocate_insn(code@, src, buf, orig as int, len as int, reloc) == Err::<
                Seq<u8>,
                HookError,
            >(e),
        },
        r matches Ok(v) ==> v@.len() == len,
{
    let insn = &code[orig..orig + len];
    let shift = wrap_to_isize(buf as i128 - src as i128);
    if reloc.is_none() {
        return Ok(vstd::slice::slice_to_vec(insn));
    }
    if len == 2 {
        let h: u16 = (insn[0] as u16) | ((insn[1] as u16) << 8);
        assert(h == halfword(insn@));
        let quadrant = (h & 0x3) as u8;
        let f3 = (h >> 13) & 0x7;
        let funct3 = f3 as u8;
        let pc_relative = quadrant == QUADRANT_C1 && (funct3 == 1 || funct3 == 5 || funct3 == 6
            || funct3 == 7);
        if pc_relative && (f3 != 1 || usize::BITS == 32) {
            return Err(HookError::TrampolineRelocateOverflow(shift));
        }
        return Ok(vstd::slice::slice_to_vec(insn));
    }
    let w = read_le_u32(insn, 0);
    let nw = relocate_word(w, shift)?;
    let mut out: Vec<u8> = Vec::new();
    push_le_u32(&mut out, nw);
    Ok(out)
}

/// Builds the trampoline for a hook at `src_addr` whose thunk overwrites `jmp_size` bytes, the
/// trampoline to be placed at `buffer_addr`. `code` holds the original bytes from `src_addr`
/// on. Returns the bytes to write to the trampoline buffer.
pub fn build_trampoline(code: &[u8], src_addr: usize, buffer_addr: usize, jmp_size: usize) -> (r:
    Result<Vec<u8>, HookError>)
    requires
        jmp_size <= MAX_PATCH_LEN,
        code@.len() >= jmp_size + MAX_INSTRUCTION_LEN,
        src_addr + code@.len() <= usize::MAX,
        buffer_addr + BUFFER_ROOM <= usize::MAX,
    ensures
        match r {
            Ok(v) => spec_build_trampoline(code@, src_addr, buffer_addr, jmp_size as int) == Ok::<
                Seq<u8>,
                HookError,
            >(v@),
            Err(e) => spec_build_trampoline(code@, src_addr, buffer_addr, jmp_size as int) == Err::<
                Seq<u8>,
                HookError,
            >(e),
        },
        r matches Ok(v) ==> v@.len() < spec_trampoline_size(jmp_size),
{
    let mut out: Vec<u8> = Vec::new();
    let mut orig: usize = 0;
    while orig < jmp_size
        invariant
            jmp_size <= MAX_PATCH_LEN,
            code@.len() >= jmp_size + MAX_INSTRUCTION_LEN,
            src_addr + code@.len() <= usize::MAX,
            buffer_addr + BUFFER_ROOM <= usize::MAX,
            orig < jmp_size + MAX_INSTRUCTION_LEN,
            out@.len() == orig,
            spec_build_trampoline(code@, src_addr, buffer_addr, jmp_size as int) == prepend(
                out@,
                spec_relocate_from(code@, src_addr, buffer_addr, jmp_size as int, orig as int),
            ),
        decreases (if orig < jmp_size {
            jmp_size - orig
        } else {
            0
        }),
    {
        let window = &code[orig..orig + MAX_INSTRUCTION_LEN];
        let (instruction_len, relocation) = disasm(window)?;
        let bytes = relocate_insn(code, src_addr, buffer_addr, orig, instruction_len, relocation)?;
        let ghost before = out@;
        let mut k: usize = 0;
        while k < bytes.len()
            invariant
                k <= bytes@.len(),
                out@ =~= before + bytes@.subrange(0, k as int),
            decreases bytes@.len() - k,
        {
            out.push(bytes[k]);
            k = k + 1;
        }
        assert(out@ =~= before + bytes@);
        proof {
            lemma_prepend_assoc(
                before,
                bytes@,
                spec_relocate_from(
                    code@,
                    src_addr,
                    buffer_addr,
                    jmp_size as int,
                    (orig + instruction_len) as int,
                ),
            );
        }
        orig = orig + instruction_len;
    }
    // jump back to the rest of the original function
    let tail_src = buffer_addr + orig;
    let tail_dst = src_addr + orig;
    let tail = match encode_jmp(tail_src, tail_dst, tail_flags()) {
        Ok(t) => t,
        Err(e) => return Err(e),
    };
    let ghost before = out@;
    let mut k: usize = 0;
    while k < tail.len()
        invariant
            k <= tail@.len(),
            out@ =~= before + tail@.subrange(0, k as int),
        decreases tail@.len() - k,
    {
        out.push(tail[k]);
        k = k + 1;
    }
    assert(out@ =~= before + tail@);
    proof {
        lemma_trampoline_shape(code@, src_addr, buffer_addr, jmp_size as int);
    }
    Ok(out)
}

/// A re-encoded jump keeps its destination register: the J-type immediate of the result is
/// exactly `off` when that is even and within the ±1 MiB reach of a JAL.
proof fn lemma_j_reencode(insn: u32, off: i32)
    requires
        -0x10_0000 <= off < 0x10_0000,
        off & 1 == 0,
    ensures
        j_imm(with_j_imm(insn, off)) == off,
        with_j_imm(insn, off) & 0xFFFu32 == insn & 0xFFFu32,
{
    let imm_20 = ((off >> 20i32) & 1i32) as u32;
    let imm_10_1 = ((off >> 1i32) & 0x3FFi32) as u32;
    let imm_11 = ((off >> 11i32) & 1i32) as u32;
    let imm_19_12 = ((off >> 12i32) & 0xFFi32) as u32;
    let w = (insn & 0xFFFu32) | (imm_20 << 31u32) | (imm_10_1 << 21u32) | (imm_11 << 20u32) | (
    imm_19_12 << 12u32);
    let a = ((w >> 31u32) & 1u32) as i32;
    let b = ((w >> 21u32) & 0x3FFu32) as i32;
    let c = ((w >> 20u32) & 1u32) as i32;
    let d = ((w >> 12u32) & 0xFFu32) as i32;
    let o = (a << 20i32) | (d << 12i32) | (c << 11i32) | (b << 1i32);
    assert((if o & (1i32 << 20i32) != 0 {
        o | !0xFFFFFi32
    } else {
        o
    }) == off && w & 0xFFFu32 == insn & 0xFFFu32) by (bit_vector)
        requires
            -0x10_0000 <= off < 0x10_0000,
            off & 1 == 0,
            imm_20 == ((off >> 20i32) & 1i32) as u32,
            imm_10_1 == ((off >> 1i32) & 0x3FFi32) as u32,
            imm_11 == ((off >> 11i32) & 1i32) as u32,
            imm_19_12 == ((off >> 12i32) & 0xFFi32) as u32,
            w == (insn & 0xFFFu32) | (imm_20 << 31u32) | (imm_10_1 << 21u32) | (imm_11 << 20u32) | (
            imm_19_12 << 12u32),
            a == ((w >> 31u32) & 1u32) as i32,
            b == ((w >> 21u32) & 0x3FFu32) as i32,
            c == ((w >> 20u32) & 1u32) as i32,
            d == ((w >> 12u32) & 0xFFu32) as i32,
            o == (a << 20i32) | (d << 12i32) | (c << 11i32) | (b << 1i32),
    ;
}

/// A re-encoded branch keeps its opcode, registers and condition, and its B-type immediate is
/// exactly `off` when that is even and within the ±4 KiB reach of a branch.
proof fn lemma_b_reencode(insn: u32, off: i32)
    requires
        -0x1000 <= off < 0x1000,
        off & 1 == 0,
    ensures
        b_imm(with_b_imm(insn, off)) == off,
        with_b_imm(insn, off) & 0x1FF_F07Fu32 == insn & 0x1FF_F07Fu32,
{
    let imm_12 = ((off >> 12i32) & 1i32) as u32;
    let imm_10_5 = ((off >> 5i32) & 0x3Fi32) as u32;
    let imm_4_1 = ((off >> 1i32) & 0xFi32) as u32;
    let imm_11 = ((off >> 11i32) & 1i32) as u32;
    let w = (insn & 0x1FF_F07Fu32) | (imm_12 << 31u32) | (imm_10_5 << 25u32) | (imm_4_1 << 8u32) | (
    imm_11 << 7u32);
    let a = ((w >> 31u32) & 1u32) as i32;
    let b = ((w >> 25u32) & 0x3Fu32) as i32;
    let c = ((w >> 8u32) & 0xFu32) as i32;
    let d = ((w >> 7u32) & 1u32) as i32;
    let o = (a << 12i32) | (d << 11i32) | (b << 5i32) | (c << 1i32);
    assert((if o & (1i32 << 12i32) != 0 {
        o | !0x1FFFi32
    } else {
        o
    }) == off && w & 0x1FF_F07Fu32 == insn & 0x1FF_F07Fu32) by (bit_vector)
        requires
            -0x1000 <= off < 0x1000,
            off & 1 == 0,
            imm_12 == ((off >> 12i32) & 1i32) as u32,
            imm_10_5 == ((off >> 5i32) & 0x3Fi32) as u32,
            imm_4_1 == ((off >> 1i32) & 0xFi32) as u32,
            imm_11 == ((off >> 11i32) & 1i32) as u32,
            w == (insn & 0x1FF_F07Fu32) | (imm_12 << 31u32) | (imm_10_5 << 25u32) | (imm_4_1
                << 8u32) | (imm_11 << 7u32),
            a == ((w >> 31u32) & 1u32) as i32,
            b == ((w >> 25u32) & 0x3Fu32) as i32,
            c == ((w >> 8u32) & 0xFu32) as i32,
            d == ((w >> 7u32) & 1u32) as i32,
            o == (a << 12i32) | (d << 11i32) | (b << 5i32) | (c << 1i32),
    ;
}

/// A re-encoded AUIPC keeps its destination register and adds exactly `v`, a multiple of 4096.
proof fn lemma_u_reencode(insn: u32, v: i32)
    requires
        v % 4096 == 0,
    ensures
        u_imm(with_u_imm(insn, v)) == v,
        with_u_imm(insn, v) & 0xFFFu32 == insn & 0xFFFu32,
{
    let w = with_u_imm(insn, v);
    assert((((w & 0xFFFF_F000u32) as i32) == v) && w & 0xFFFu32 == insn & 0xFFFu32) by (bit_vector)
        requires
            v % 4096 == 0,
            w == (insn & 0xFFFu32) | ((v as u32) & 0xFFFF_F000u32),
    ;
}

/// A 32-bit PC-relative instruction copied into the trampoline keeps its registers, condition
/// and opcode, and still designates the same address: its immediate plus its new address equals
/// the old immediate plus its old address, modulo 2^N for N-bit addresses, as the processor adds them.
pub proof fn lemma_relocated_target_kept(insn: u32, src: usize, buf: usize, orig: int)
    requires
        spec_relocate_word(insn, wrap_isize(buf - src)) is Ok,
    ensures
        ({
            let w = spec_relocate_word(insn, wrap_isize(buf - src))->Ok_0;
            &&& (insn & 0x7Fu32 == 0x6Fu32 ==> w & 0xFFFu32 == insn & 0xFFFu32 && (j_imm(w) + (buf
                + orig)) % address_space() == (j_imm(insn) + (src + orig)) % address_space())
            &&& (insn & 0x7Fu32 == 0x63u32 ==> w & 0x1FF_F07Fu32 == insn & 0x1FF_F07Fu32 && (b_imm(
                w,
            ) + (buf + orig)) % address_space() == (b_imm(insn) + (src + orig)) % address_space())
            &&& (insn & 0x7Fu32 == 0x17u32 ==> w & 0xFFFu32 == insn & 0xFFFu32 && (u_imm(w) + (buf
                + orig)) % address_space() == (u_imm(insn) + (src + orig)) % address_space())
            &&& (insn & 0x7Fu32 != 0x6Fu32 && insn & 0x7Fu32 != 0x63u32 && insn & 0x7Fu32 != 0x17u32
                ==> w == insn)
        }),
{
    let moved = buf - src;
    let shift = wrap_isize(moved);
    let opcode = insn & 0x7Fu32;
    let old: int = if opcode == 0x17u32 {
        u_imm(insn)
    } else if opcode == 0x6Fu32 {
        j_imm(insn) as int
    } else {
        b_imm(insn) as int
    };
    let v = old - shift;
    if opcode == 0x6Fu32 {
        let x = v as i32;
        assert(x & 1 == 0) by (bit_vector)
            requires
                x % 2 == 0,
        ;
        lemma_j_reencode(insn, x);
    } else if opcode == 0x63u32 {
        let x = v as i32;
        assert(x & 1 == 0) by (bit_vector)
            requires
                x % 2 == 0,
        ;
        lemma_b_reencode(insn, x);
    } else if opcode == 0x17u32 {
        assert(u_imm(insn) % 4096 == 0) by {
            let hi = insn & 0xFFFF_F000u32;
            assert((hi as i32) % 4096 == 0) by (bit_vector)
                requires
                    hi == insn & 0xFFFF_F000u32,
            ;
        }
        lemma_u_reencode(insn, v as i32);
    }
    // the new offset differs from the old one by `shift`, the distance moved up to a multiple of 2^N
    let a = old + (src + orig);
    lemma_wrap_isize(a - shift, moved);
    assert(v + (buf + orig) == (a - shift) + moved);
}

/// Whether `t` is the instructions from offset `orig` up to `n` of the original code, relocated,
/// followed by the thunk that jumps from `buf + n` back to `src + n`.
pub open spec fn resumes_from(t: Seq<u8>, src: usize, buf: usize, orig: int, n: int) -> bool {
    &&& t.len() == n - orig + JMP_SIZE
    &&& spec_encode_jmp((buf + n) as usize, (src + n) as usize) == Ok::<Seq<u8>, HookError>(
        t.subrange(n - orig, n - orig + JMP_SIZE),
    )
}

/// A RISC-V trampoline holds the overwritten instructions (at least `jmp_size` and less than
/// `jmp_size + 4` bytes, at the same offsets as in the original) followed by a jump back to the
/// first instruction that was not copied.
pub proof fn lemma_trampoline_shape(code: Seq<u8>, src: usize, buf: usize, jmp_size: int)
    requires
        0 <= jmp_size,
        code.len() >= jmp_size + MAX_INSTRUCTION_LEN,
        spec_build_trampoline(code, src, buf, jmp_size) is Ok,
    ensures
        exists|n: int|
            jmp_size <= n < jmp_size + MAX_INSTRUCTION_LEN && #[trigger] resumes_from(
                spec_build_trampoline(code, src, buf, jmp_size)->Ok_0,
                src,
                buf,
                0,
                n,
            ),
{
    lemma_relocate_from_shape(code, src, buf, jmp_size, 0);
}

proof fn lemma_relocate_from_shape(code: Seq<u8>, src: usize, buf: usize, jmp_size: int, orig: int)
    requires
        0 <= orig < jmp_size + MAX_INSTRUCTION_LEN,
        code.len() >= jmp_size + MAX_INSTRUCTION_LEN,
        spec_relocate_from(code, src, buf, jmp_size, orig) is Ok,
    ensures
        exists|n: int|
            jmp_size <= n < jmp_size + MAX_INSTRUCTION_LEN && orig <= n && #[trigger] resumes_from(
                spec_relocate_from(code, src, buf, jmp_size, orig)->Ok_0,
                src,
                buf,
                orig,
                n,
            ),
    decreases (if orig < jmp_size {
        jmp_size - orig
    } else {
        0
    }),
{
    let r = spec_relocate_from(code, src, buf, jmp_size, orig);
    if orig >= jmp_size {
        let t = r->Ok_0;
        assert(t.subrange(0, JMP_SIZE as int) =~= t);
        assert(resumes_from(t, src, buf, orig, orig));
    } else {
        let window = code.subrange(orig, orig + MAX_INSTRUCTION_LEN);
        let (len, reloc) = spec_disasm(window)->Ok_0;
        let bytes = spec_relocate_insn(code, src, buf, orig, len as int, reloc)->Ok_0;
        assert(bytes.len() == len);
        lemma_relocate_from_shape(code, src, buf, jmp_size, orig + len);
        let rest = spec_relocate_from(code, src, buf, jmp_size, orig + len);
        let n = choose|n: int|
            jmp_size <= n < jmp_size + MAX_INSTRUCTION_LEN && orig + len <= n
                && #[trigger] resumes_from(rest->Ok_0, src, buf, orig + len, n);
        let t = r->Ok_0;
        let rt = rest->Ok_0;
        assert(t == bytes + rt);
        assert(t.subrange(n - orig, n - orig + JMP_SIZE) =~= rt.subrange(
            n - (orig + len),
            n - (orig + len) + JMP_SIZE,
        ));
        assert(resumes_from(t, src, buf, orig, n));
    }
}

/// What the trampoline does with one instruction of the prologue, told from its raw bytes
/// `b0`, `b1` (its first two bytes) and the distance the trampoline lies from the original code:
/// - a compressed instruction (low two bits of `b0` not both set) that does not jump or branch
///   relative to its own address is copied as it is, and the trampoline goes on after it;
/// - a compressed jump or branch (quadrant 1 with funct3, the top three bits of `b1`, 5, 6 or
///   7, or 1 on RV32 where that is C.JAL) is refused with `TrampolineRelocateOverflow` and the
///   distance;
/// - a 32-bit instruction whose opcode is not AUIPC (0x17), JAL (0x6F) or a branch (0x63) is
///   copied as it is.
pub proof fn lemma_trampoline_copies_fixed_insn(
    code: Seq<u8>,
    src: usize,
    buf: usize,
    jmp_size: int,
    orig: int,
)
    requires
        0 <= orig < jmp_size,
        orig + MAX_INSTRUCTION_LEN <= code.len(),
    ensures
        ({
            let b0 = code[orig];
            let f3 = code[orig + 1] >> 5u8;
            let jumps = b0 & 3u8 == 1u8 && (f3 == 5u8 || f3 == 6u8 || f3 == 7u8 || (f3 == 1u8
                && usize::BITS == 32));
            &&& b0 & 3u8 != 3u8 && !jumps ==> spec_relocate_from(code, src, buf, jmp_size, orig)
                == prepend(
                code.subrange(orig, orig + 2),
                spec_relocate_from(code, src, buf, jmp_size, orig + 2),
            )
            &&& b0 & 3u8 != 3u8 && jumps ==> spec_relocate_from(code, src, buf, jmp_size, orig)
                == Err::<Seq<u8>, HookError>(
                HookError::TrampolineRelocateOverflow(wrap_isize(buf - src) as i64),
            )
            &&& b0 & 3u8 == 3u8 && b0 & 0x7Fu8 != 0x17u8 && b0 & 0x7Fu8 != 0x6Fu8 && b0 & 0x7Fu8
                != 0x63u8 ==> spec_relocate_from(code, src, buf, jmp_size, orig) == prepend(
                code.subrange(orig, orig + 4),
                spec_relocate_from(code, src, buf, jmp_size, orig + 4),
            )
        }),
{
    let window = code.subrange(orig, orig + MAX_INSTRUCTION_LEN);
    assert(window[0] == code[orig] && window[1] == code[orig + 1]);
    lemma_disasm_pc_relative(window);
    let insn2 = code.subrange(orig, orig + 2);
    let h = halfword(insn2);
    let b0 = code[orig];
    let b1 = code[orig + 1];
    assert(insn2[0] == b0 && insn2[1] == b1);
    assert((h & 0x3u16) as u8 == b0 & 3u8 && ((h >> 13u16) & 0x7u16) as u8 == b1 >> 5u8 && (h
        >> 13u16) & 0x7u16 == (b1 >> 5u8) as u16) by (bit_vector)
        requires
            h == (b0 as u16) | ((b1 as u16) << 8u16),
    ;
}

} // verus!
