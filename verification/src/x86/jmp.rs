//! The jump thunks written over a hooked function's prologue and at the end of a trampoline.

use vstd::prelude::*;
use crate::bytes::{le_u32, push_le_u32, u32_at, lemma_le_u32_roundtrip, lemma_i32_bits_roundtrip};
use crate::error::HookError;
use crate::x86::decode::{is_long_mode, long_mode};
use crate::x86::hookflags::HookFlags;
use crate::wrap::{address_space, lemma_wrap_isize, wrap_isize, wrap_to_isize};

verus! {

/// Size of the 5-byte `E9 rel32` jump.
pub const JMP32_SIZE: usize = 5;

/// Size of the 14-byte absolute `push lo; mov dword [rsp+4], hi; ret` thunk.
pub const JMP64_SIZE: usize = 14;

pub const JMP_OPCODE: u8 = 0xE9;
pub const PUSH_OPCODE: u8 = 0x68;
pub const MOV_OPCODE: u8 = 0xC7;
pub const RET_OPCODE: u8 = 0xC3;
pub const MOV_MODRM: u8 = 0x44;
pub const MOV_SIB: u8 = 0x24;
pub const MOV_OFFSET: u8 = 0x04;

/// Whether `flags` asks for the absolute 64-bit thunk.
pub open spec fn wants_jmp64(flags: HookFlags) -> bool {
    flags@ & 1u32 == 1u32
}

/// Whether the thunk for `flags` is the absolute one: asked for, and available in 64-bit mode.
pub open spec fn uses_jmp64(flags: HookFlags) -> bool {
    long_mode() && wants_jmp64(flags)
}

/// Number of bytes the jump thunk for `flags` occupies.
pub open spec fn spec_jmp_size(flags: HookFlags) -> usize {
    if uses_jmp64(flags) {
        JMP64_SIZE
    } else {
        JMP32_SIZE
    }
}

/// Distance that a `E9 rel32` jump at `src` must encode to land on `dst`, as address arithmetic
/// of the pointer width computes it: on a 32-bit target every address is in reach.
pub open spec fn jmp32_offset(src: usize, dst: usize) -> int {
    wrap_isize(dst - (src + JMP32_SIZE))
}

/// The bytes of a `E9 rel32` jump at `src` to `dst`, or `Overflow` when the distance does not fit
/// in 32 bits.
pub open spec fn spec_jmp32(src: usize, dst: usize) -> Result<Seq<u8>, HookError> {
    let off = jmp32_offset(src, dst);
    if off < i32::MIN || off > i32::MAX {
        Err(HookError::Overflow(off as i64))
    } else {
        Ok(seq![JMP_OPCODE] + le_u32((off as i32) as u32))
    }
}

/// The bytes of the absolute thunk to `dst`: push the low half, store the high half above it and
/// return to the address so formed.
pub open spec fn spec_jmp64(dst: usize) -> Seq<u8> {
    seq![PUSH_OPCODE] + le_u32(dst as u32) + seq![MOV_OPCODE, MOV_MODRM, MOV_SIB, MOV_OFFSET]
        + le_u32(((dst as u64) >> 32u64) as u32) + seq![RET_OPCODE]
}

/// The bytes of the jump thunk at `src` to `dst` for `flags`.
pub open spec fn spec_encode_jmp(src: usize, dst: usize, flags: HookFlags) -> Result<Seq<u8>, HookError> {
    if uses_jmp64(flags) {
        Ok(spec_jmp64(dst))
    } else {
        spec_jmp32(src, dst)
    }
}

/// The tail jump of a trampoline, placed at `at`, back to `to`: the absolute thunk in 64-bit
/// mode, else a rel32 jump.
pub open spec fn spec_tail_jmp(at: usize, to: usize) -> Result<Seq<u8>, HookError> {
    if long_mode() {
        Ok(spec_jmp64(to))
    } else {
        spec_jmp32(at, to)
    }
}

/// Returns the number of bytes the jmp thunk for `flags` occupies.
pub fn jmp_size(flags: HookFlags) -> (r: usize)
    ensures
        r == spec_jmp_size(flags),
        r == JMP32_SIZE || r == JMP64_SIZE,
{
    if is_long_mode() && flags.contains(HookFlags::use_64bit_offset()) {
        return JMP64_SIZE;
    }
    JMP32_SIZE
}

/// Size of the tail jmp used in trampolines: in 64-bit mode the absolute thunk, so that a
/// trampoline can live anywhere in the address space; else the rel32 jump.
pub open spec fn spec_tail_jmp_size() -> usize {
    if long_mode() {
        JMP64_SIZE
    } else {
        JMP32_SIZE
    }
}

/// Size of the tail jmp used in trampolines, see `spec_tail_jmp_size`.
pub fn tail_jmp_size() -> (r: usize)
    ensures
        r == spec_tail_jmp_size(),
{
    if is_long_mode() {
        JMP64_SIZE
    } else {
        JMP32_SIZE
    }
}

/// Flags to use when writing the tail jmp of a trampoline: the absolute thunk in 64-bit mode.
pub fn tail_flags() -> (r: HookFlags)
    ensures
        r@ == (if long_mode() {
            1u32
        } else {
            0u32
        }),
        uses_jmp64(r) == long_mode(),
        spec_jmp_size(r) == spec_tail_jmp_size(),
{
    if is_long_mode() {
        let r = HookFlags::use_64bit_offset();
        assert(1u32 & 1u32 == 1u32) by (bit_vector);
        r
    } else {
        let r = HookFlags::none();
        assert(0u32 & 1u32 == 0u32) by (bit_vector);
        r
    }
}

/// The bytes of the jmp thunk at `src_addr` redirecting execution to `dst_addr`.
pub fn encode_jmp(src_addr: usize, dst_addr: usize, flags: HookFlags) -> (r: Result<Vec<u8>, HookError>)
    ensures
        match r {
            Ok(v) => spec_encode_jmp(src_addr, dst_addr, flags) == Ok::<Seq<u8>, HookError>(v@),
            Err(e) => spec_encode_jmp(src_addr, dst_addr, flags) == Err::<Seq<u8>, HookError>(e),
        },
        r matches Ok(v) ==> v@.len() == spec_jmp_size(flags),
{
    let one = HookFlags::use_64bit_offset();
    if is_long_mode() && flags.contains(one) {
        assert(flags@ & 1u32 == 1u32);
        return Ok(encode_jmp64(dst_addr));
    }
    encode_jmp32(src_addr, dst_addr)
}

/// The bytes of a `E9 rel32` jump at `src` to `dst`.
pub fn encode_jmp32(src: usize, dst: usize) -> (r: Result<Vec<u8>, HookError>)
    ensures
        match r {
            Ok(v) => spec_jmp32(src, dst) == Ok::<Seq<u8>, HookError>(v@),
            Err(e) => spec_jmp32(src, dst) == Err::<Seq<u8>, HookError>(e),
        },
        r matches Ok(v) ==> v@.len() == JMP32_SIZE,
{
    let offset = wrap_to_isize(dst as i128 - (src as i128 + 5));
    if offset < i32::MIN as i64 || offset > i32::MAX as i64 {
        return Err(HookError::Overflow(offset));
    }
    let rel = offset as i32;
    let mut out: Vec<u8> = Vec::new();
    out.push(JMP_OPCODE);
    push_le_u32(&mut out, rel as u32);
    assert(out@ =~= seq![JMP_OPCODE] + le_u32(rel as u32));
    Ok(out)
}

/// The bytes of the absolute 14-byte thunk to `dst`.
pub fn encode_jmp64(dst: usize) -> (r: Vec<u8>)
    ensures
        r@ == spec_jmp64(dst),
        r@.len() == JMP64_SIZE,
{
    let lo = dst as u32;
    let hi = ((dst as u64) >> 32) as u32;
    let mut out: Vec<u8> = Vec::new();
    out.push(PUSH_OPCODE);
    push_le_u32(&mut out, lo);
    out.push(MOV_OPCODE);
    out.push(MOV_MODRM);
    out.push(MOV_SIB);
    out.push(MOV_OFFSET);
    push_le_u32(&mut out, hi);
    out.push(RET_OPCODE);
    assert(out@ =~= spec_jmp64(dst));
    out
}

/// The relative operand of an `E9 rel32` jump encoded at `src` lands on `dst`, the processor
/// adding it to the address after the jump modulo the number of addresses: the jump goes where
/// it was asked to.
pub proof fn lemma_jmp32_lands_on_dst(src: usize, dst: usize)
    ensures
        spec_jmp32(src, dst) matches Ok(b) ==> {
            &&& b.len() == JMP32_SIZE
            &&& b[0] == JMP_OPCODE
            &&& (src + JMP32_SIZE + (u32_at(b, 1) as i32)) % address_space() == dst
        },
        spec_jmp32(src, dst) is Err <==> jmp32_offset(src, dst) < i32::MIN || jmp32_offset(src, dst)
            > i32::MAX,
{
    let off = jmp32_offset(src, dst);
    lemma_wrap_isize(src + JMP32_SIZE, dst - (src + JMP32_SIZE));
    vstd::arithmetic::div_mod::lemma_small_mod(dst as nat, address_space() as nat);
    if i32::MIN <= off <= i32::MAX {
        let rel = off as i32;
        let b = seq![JMP_OPCODE] + le_u32(rel as u32);
        lemma_le_u32_roundtrip(rel as u32);
        lemma_i32_bits_roundtrip(rel);
        assert(b.subrange(1, 5) =~= le_u32(rel as u32));
        assert(u32_at(b, 1) == u32_at(le_u32(rel as u32), 0));
    }
}

/// The absolute thunk stores the full 64-bit `dst`: its low and high halves put back together
/// give `dst`.
pub proof fn lemma_jmp64_lands_on_dst(dst: usize)
    ensures
        ({
            let b = spec_jmp64(dst);
            &&& b.len() == JMP64_SIZE
            &&& (((u32_at(b, 9) as u64) << 32u64) | (u32_at(b, 1) as u64)) == dst as u64
        }),
{
    let d = dst as u64;
    let lo = dst as u32;
    let hi = (d >> 32u64) as u32;
    let b = spec_jmp64(dst);
    lemma_le_u32_roundtrip(lo);
    lemma_le_u32_roundtrip(hi);
    assert(b.subrange(1, 5) =~= le_u32(lo));
    assert(b.subrange(9, 13) =~= le_u32(hi));
    assert(u32_at(b, 1) == u32_at(le_u32(lo), 0));
    assert(u32_at(b, 9) == u32_at(le_u32(hi), 0));
    assert(lo == d as u32);
    assert((((d >> 32u64) as u32 as u64) << 32u64) | ((d as u32) as u64) == d) by (bit_vector);
}

} // verus!
