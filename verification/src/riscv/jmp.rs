//! The jump thunks of RISC-V hooks: a `jal` when the target is within ±1 MiB, else an
//! `auipc t0`/`jalr x0` pair relative to the thunk's own address, which reaches every address
//! on RV32 (addresses wrap modulo 2^32) and about ±2 GiB on RV64.

use vstd::prelude::*;
use crate::bytes::{le_u32, lemma_le_u32_roundtrip, push_le_u32, u32_at};
use crate::error::HookError;
use crate::riscv::hookflags::HookFlags;
use crate::wrap::{address_space, lemma_wrap_isize, wrap_isize, wrap_to_isize};

verus! {

/// Size of every RISC-V jump thunk: two 32-bit instructions.
pub const JMP_SIZE: usize = 8;

/// The `addi x0, x0, 0` (nop) that pads a `jal` thunk.
pub const NOP: u32 = 0x0000_0013;

pub const OPCODE_JAL_WORD: u32 = 0x6F;
pub const OPCODE_AUIPC_WORD: u32 = 0x17;
pub const OPCODE_JALR_WORD: u32 = 0x67;

/// The `jal x0, offset` instruction (J-type immediate, bit 0 of `offset` dropped).
pub open spec fn jal_word(offset: i32) -> u32 {
    let imm_20 = ((offset >> 20i32) & 1i32) as u32;
    let imm_10_1 = ((offset >> 1i32) & 0x3FFi32) as u32;
    let imm_11 = ((offset >> 11i32) & 1i32) as u32;
    let imm_19_12 = ((offset >> 12i32) & 0xFFi32) as u32;
    OPCODE_JAL_WORD | (imm_20 << 31u32) | (imm_10_1 << 21u32) | (imm_11 << 20u32) | (imm_19_12
        << 12u32)
}

/// The sign-extended J-type immediate of `insn`.
pub open spec fn j_imm(insn: u32) -> i32 {
    let imm_20 = ((insn >> 31u32) & 1u32) as i32;
    let imm_10_1 = ((insn >> 21u32) & 0x3FFu32) as i32;
    let imm_11 = ((insn >> 20u32) & 1u32) as i32;
    let imm_19_12 = ((insn >> 12u32) & 0xFFu32) as i32;
    let off = (imm_20 << 20i32) | (imm_19_12 << 12i32) | (imm_11 << 11i32) | (imm_10_1 << 1i32);
    if off & (1i32 << 20i32) != 0 {
        off | !0xFFFFFi32
    } else {
        off
    }
}

/// `auipc t0, 0`: opcode 0x17 with destination register x5 (t0).
pub const AUIPC_T0: u32 = 0x297;

/// `jalr x0, 0(t0)`: opcode 0x67, no link (destination x0), base register x5 (t0).
pub const JALR_X0_T0: u32 = 0x2_8067;

/// The upper immediate of the `auipc` for the distance `d`, rounded so that the sign-extended
/// low 12 bits of the `jalr` complete it.
pub open spec fn auipc_hi(d: int) -> u32 {
    ((((d + 0x800) as i64) >> 12i64) as u32) & 0xFFFFFu32
}

/// The low 12 bits of the distance `d`, the immediate of the `jalr`.
pub open spec fn jalr_lo(d: int) -> u32 {
    ((d as i64) as u32) & 0xFFFu32
}

/// The `auipc t0, hi` instruction for the distance `d`.
pub open spec fn auipc_word(d: int) -> u32 {
    AUIPC_T0 | (auipc_hi(d) << 12u32)
}

/// The `jalr x0, lo(t0)` instruction for the distance `d`.
pub open spec fn jalr_word(d: int) -> u32 {
    JALR_X0_T0 | (jalr_lo(d) << 20u32)
}

/// The sign-extended value that an `auipc` (U-type) instruction adds to its own address.
pub open spec fn u_imm(insn: u32) -> int {
    ((insn & 0xFFFF_F000u32) as i32) as int
}

/// The sign-extended I-type immediate of `insn` (that of a `jalr`).
pub open spec fn i_imm(insn: u32) -> int {
    ((insn as i32) >> 20i32) as int
}

/// Distance from `src` to `dst`, as 64-bit two's-complement arithmetic computes it.
pub open spec fn jmp_offset(src: usize, dst: usize) -> int {
    wrap_isize(dst - src)
}

/// Whether a `jal` at `src` reaches `dst`.
pub open spec fn jal_reaches(src: usize, dst: usize) -> bool {
    -0x10_0000 <= jmp_offset(src, dst) < 0x10_0000
}

/// Whether an `auipc`/`jalr` pair at `src` reaches `dst`: always with 32-bit addresses, which
/// wrap; with 64-bit ones when the rounded upper part of the distance fits the 20-bit immediate
/// (about ±2 GiB).
pub open spec fn far_reaches(src: usize, dst: usize) -> bool {
    usize::BITS == 32 || -0x8000_0000 <= jmp_offset(src, dst) + 0x800 < 0x8000_0000
}

/// The bytes of the jump thunk at `src` to `dst`: `jal x0` and a nop within ±1 MiB, else
/// `auipc t0` and `jalr x0` relative to the thunk's own address, else `Overflow`.
pub open spec fn spec_encode_jmp(src: usize, dst: usize) -> Result<Seq<u8>, HookError> {
    let d = jmp_offset(src, dst);
    if jal_reaches(src, dst) {
        Ok(le_u32(jal_word(d as i32)) + le_u32(NOP))
    } else if far_reaches(src, dst) {
        Ok(le_u32(auipc_word(d)) + le_u32(jalr_word(d)))
    } else {
        Err(HookError::Overflow(d as i64))
    }
}

/// Returns the number of bytes the jmp thunk occupies.
pub fn jmp_size(_flags: HookFlags) -> (r: usize)
    ensures
        r == JMP_SIZE,
{
    JMP_SIZE
}

/// Size of the tail jmp used in trampolines.
pub fn tail_jmp_size() -> (r: usize)
    ensures
        r == JMP_SIZE,
{
    JMP_SIZE
}

/// Flags to use when writing the tail jmp of a trampoline.
pub fn tail_flags() -> (r: HookFlags)
    ensures
        r@ == 0,
{
    HookFlags::none()
}

/// The bytes of the jmp thunk at `src_addr` redirecting execution to `dst_addr`.
pub fn encode_jmp(src_addr: usize, dst_addr: usize, _flags: HookFlags) -> (r: Result<Vec<u8>, HookError>)
    ensures
        match r {
            Ok(v) => spec_encode_jmp(src_addr, dst_addr) == Ok::<Seq<u8>, HookError>(v@),
            Err(e) => spec_encode_jmp(src_addr, dst_addr) == Err::<Seq<u8>, HookError>(e),
        },
{
    let offset = wrap_to_isize(dst_addr as i128 - src_addr as i128);
    if offset >= -0x10_0000 && offset < 0x10_0000 {
        return Ok(encode_jal(offset as i32));
    }
    if usize::BITS == 32 || (offset >= -0x8000_0800 && offset < 0x7FFF_F800) {
        return Ok(encode_auipc_jalr(offset));
    }
    Err(HookError::Overflow(offset))
}

/// The bytes of `jal x0, offset` followed by a nop.
pub fn encode_jal(offset: i32) -> (r: Vec<u8>)
    ensures
        r@ == le_u32(jal_word(offset)) + le_u32(NOP),
{
    let imm_20 = ((offset >> 20) & 1) as u32;
    let imm_10_1 = ((offset >> 1) & 0x3FF) as u32;
    let imm_11 = ((offset >> 11) & 1) as u32;
    let imm_19_12 = ((offset >> 12) & 0xFF) as u32;
    let insn: u32 = OPCODE_JAL_WORD | (imm_20 << 31) | (imm_10_1 << 21) | (imm_11 << 20) | (
    imm_19_12 << 12);
    let mut out: Vec<u8> = Vec::new();
    push_le_u32(&mut out, insn);
    push_le_u32(&mut out, NOP);
    out
}

/// The bytes of `auipc t0, hi` followed by `jalr x0, lo(t0)` for the distance `d`.
pub fn encode_auipc_jalr(d: i64) -> (r: Vec<u8>)
    requires
        -0x8000_0800 <= d < 0x8000_0000,
    ensures
        r@ == le_u32(auipc_word(d as int)) + le_u32(jalr_word(d as int)),
{
    let hi = (((d + 0x800) >> 12) as u32) & 0xFFFFF;
    let lo = (d as u32) & 0xFFF;
    let auipc: u32 = AUIPC_T0 | (hi << 12);
    let jalr: u32 = JALR_X0_T0 | (lo << 20);
    let mut out: Vec<u8> = Vec::new();
    push_le_u32(&mut out, auipc);
    push_le_u32(&mut out, jalr);
    out
}

/// A `jal` thunk encodes its offset exactly: for an even offset within ±1 MiB, the J-type
/// immediate of the encoded instruction is that offset, and the instruction is a `jal x0`.
pub proof fn lemma_jal_roundtrip(offset: i32)
    requires
        -0x10_0000 <= offset < 0x10_0000,
        offset & 1 == 0,
    ensures
        j_imm(jal_word(offset)) == offset,
        jal_word(offset) & 0xFFFu32 == OPCODE_JAL_WORD,
{
    let imm_20 = ((offset >> 20i32) & 1i32) as u32;
    let imm_10_1 = ((offset >> 1i32) & 0x3FFi32) as u32;
    let imm_11 = ((offset >> 11i32) & 1i32) as u32;
    let imm_19_12 = ((offset >> 12i32) & 0xFFi32) as u32;
    let w = 0x6Fu32 | (imm_20 << 31u32) | (imm_10_1 << 21u32) | (imm_11 << 20u32) | (imm_19_12
        << 12u32);
    let a = ((w >> 31u32) & 1u32) as i32;
    let b = ((w >> 21u32) & 0x3FFu32) as i32;
    let c = ((w >> 20u32) & 1u32) as i32;
    let d = ((w >> 12u32) & 0xFFu32) as i32;
    let off = (a << 20i32) | (d << 12i32) | (c << 11i32) | (b << 1i32);
    assert((if off & (1i32 << 20i32) != 0 {
        off | !0xFFFFFi32
    } else {
        off
    }) == offset) by (bit_vector)
        requires
            -0x10_0000 <= offset < 0x10_0000,
            offset & 1 == 0,
            imm_20 == ((offset >> 20i32) & 1i32) as u32,
            imm_10_1 == ((offset >> 1i32) & 0x3FFi32) as u32,
            imm_11 == ((offset >> 11i32) & 1i32) as u32,
            imm_19_12 == ((offset >> 12i32) & 0xFFi32) as u32,
            w == 0x6Fu32 | (imm_20 << 31u32) | (imm_10_1 << 21u32) | (imm_11 << 20u32) | (imm_19_12
                << 12u32),
            a == ((w >> 31u32) & 1u32) as i32,
            b == ((w >> 21u32) & 0x3FFu32) as i32,
            c == ((w >> 20u32) & 1u32) as i32,
            d == ((w >> 12u32) & 0xFFu32) as i32,
            off == (a << 20i32) | (d << 12i32) | (c << 11i32) | (b << 1i32),
    ;
    assert(w & 0xFFFu32 == 0x6Fu32) by (bit_vector)
        requires
            imm_20 == ((offset >> 20i32) & 1i32) as u32,
            imm_10_1 == ((offset >> 1i32) & 0x3FFi32) as u32,
            imm_11 == ((offset >> 11i32) & 1i32) as u32,
            imm_19_12 == ((offset >> 12i32) & 0xFFi32) as u32,
            w == 0x6Fu32 | (imm_20 << 31u32) | (imm_10_1 << 21u32) | (imm_11 << 20u32) | (imm_19_12
                << 12u32),
    ;
}

/// A thunk whose target is within reach of a `jal` (at an even distance) is a `jal x0` whose
/// offset, added to `src` modulo 2^N (N-bit addresses), lands on `dst`; a nop follows it.
pub proof fn lemma_jal_thunk_lands_on_dst(src: usize, dst: usize)
    requires
        jal_reaches(src, dst),
        jmp_offset(src, dst) % 2 == 0,
    ensures
        spec_encode_jmp(src, dst) is Ok,
        ({
            let t = spec_encode_jmp(src, dst)->Ok_0;
            &&& t.len() == JMP_SIZE
            &&& u32_at(t, 0) & 0xFFFu32 == OPCODE_JAL_WORD
            &&& (src + j_imm(u32_at(t, 0))) % address_space() == dst
            &&& u32_at(t, 4) == NOP
        }),
{
    let off = jmp_offset(src, dst) as i32;
    assert(off & 1 == 0) by (bit_vector)
        requires
            off % 2 == 0,
    ;
    lemma_jal_roundtrip(off);
    let w = jal_word(off);
    let t = spec_encode_jmp(src, dst)->Ok_0;
    lemma_le_u32_roundtrip(w);
    lemma_le_u32_roundtrip(NOP);
    assert(t.subrange(4, 8) =~= le_u32(NOP));
    assert(u32_at(t, 4) == u32_at(le_u32(NOP), 0));
    lemma_wrap_isize(src as int, dst - src);
    vstd::arithmetic::div_mod::lemma_small_mod(dst as nat, address_space() as nat);
}

/// A thunk to a target beyond the reach of a `jal` but within that of an `auipc`/`jalr` pair is
/// `auipc t0, hi` followed by `jalr x0, lo(t0)`: it changes only t0, links no return address,
/// and jumps to its own address plus the two immediates, modulo 2^N (N-bit addresses), which is `dst` (the
/// `jalr` clears bit 0, which an instruction address has clear).
pub proof fn lemma_far_thunk_lands_on_dst(src: usize, dst: usize)
    requires
        !jal_reaches(src, dst),
        far_reaches(src, dst),
    ensures
        spec_encode_jmp(src, dst) is Ok,
        ({
            let t = spec_encode_jmp(src, dst)->Ok_0;
            &&& t.len() == JMP_SIZE
            &&& u32_at(t, 0) & 0xFFFu32 == AUIPC_T0
            &&& u32_at(t, 4) & 0xF_FFFFu32 == JALR_X0_T0
            &&& (src + u_imm(u32_at(t, 0)) + i_imm(u32_at(t, 4))) % address_space() == dst
        }),
{
    let d = jmp_offset(src, dst);
    lemma_wrap_isize(src as int, dst - src);
    let x = d as i64;
    let hi = auipc_hi(d);
    let lo = jalr_lo(d);
    let w0 = auipc_word(d);
    let w1 = jalr_word(d);
    let sum = ((w0 & 0xFFFF_F000u32) as i32) as i64 + ((w1 as i32) >> 20i32) as i64;
    assert(w0 & 0xFFFu32 == 0x297u32 && w1 & 0xF_FFFFu32 == 0x2_8067u32) by (bit_vector)
        requires
            w0 == 0x297u32 | (hi << 12u32),
            w1 == 0x2_8067u32 | (lo << 20u32),
    ;
    if usize::BITS == 64 {
        assert(((w0 & 0xFFFF_F000u32) as i32) as i64 + ((w1 as i32) >> 20i32) as i64 == x) by (bit_vector)
            requires
                -0x8000_0000 <= x + 0x800 < 0x8000_0000,
                hi == ((((x + 0x800) as i64) >> 12i64) as u32) & 0xFFFFFu32,
                lo == (x as u32) & 0xFFFu32,
                w0 == 0x297u32 | (hi << 12u32),
                w1 == 0x2_8067u32 | (lo << 20u32),
        ;
    } else {
        // with 32-bit addresses the upper part may wrap around, by 2^32
        assert(((w0 & 0xFFFF_F000u32) as i32) as i64 + ((w1 as i32) >> 20i32) as i64 == x || ((w0 & 0xFFFF_F000u32) as i32) as i64 + ((w1 as i32) >> 20i32) as i64 == x - 0x1_0000_0000) by (bit_vector)
            requires
                -0x8000_0000 <= x < 0x8000_0000,
                hi == ((((x + 0x800) as i64) >> 12i64) as u32) & 0xFFFFFu32,
                lo == (x as u32) & 0xFFFu32,
                w0 == 0x297u32 | (hi << 12u32),
                w1 == 0x2_8067u32 | (lo << 20u32),
        ;
        if sum != x {
            vstd::arithmetic::div_mod::lemma_mod_multiples_vanish(-1, src + x, address_space());
        }
    }
    let t = spec_encode_jmp(src, dst)->Ok_0;
    lemma_le_u32_roundtrip(w0);
    lemma_le_u32_roundtrip(w1);
    assert(t.subrange(4, 8) =~= le_u32(w1));
    assert(u32_at(t, 4) == u32_at(le_u32(w1), 0));
    vstd::arithmetic::div_mod::lemma_small_mod(dst as nat, address_space() as nat);
}

} // verus!
