//! Instruction-length decoder for RISC-V code, telling which instructions are PC-relative.

use vstd::prelude::*;
use crate::bytes::u32_from_le;
use crate::error::HookError;

verus! {

pub const OPCODE_AUIPC: u8 = 0x17;
pub const OPCODE_JAL: u8 = 0x6F;
pub const OPCODE_BRANCH: u8 = 0x63;

pub const QUADRANT_C1: u8 = 0x01;
pub const QUADRANT_C2: u8 = 0x02;

/// The first 16-bit parcel of `code`, little-endian.
pub open spec fn halfword(code: Seq<u8>) -> u16 {
    (code[0] as u16) | ((code[1] as u16) << 8u16)
}

/// The first 32-bit word of `code`, little-endian.
pub open spec fn word(code: Seq<u8>) -> u32 {
    u32_from_le(code[0], code[1], code[2], code[3])
}

/// Whether the compressed instruction `insn` is PC-relative: C.J, C.JAL, C.BEQZ and C.BNEZ
/// (quadrant 1, funct3 1, 5, 6 or 7). C.JR and C.JALR are indirect.
pub open spec fn compressed_is_pc_relative(insn: u16) -> bool {
    let quadrant = (insn & 0x3u16) as u8;
    let funct3 = ((insn >> 13u16) & 0x7u16) as u8;
    quadrant == QUADRANT_C1 && (funct3 == 1 || funct3 == 5 || funct3 == 6 || funct3 == 7)
}

/// Whether the 32-bit instruction `insn` is PC-relative: AUIPC, JAL and the branches.
pub open spec fn standard_is_pc_relative(insn: u32) -> bool {
    let opcode = (insn & 0x7Fu32) as u8;
    opcode == OPCODE_AUIPC || opcode == OPCODE_JAL || opcode == OPCODE_BRANCH
}

/// What `disasm` returns for `code`: the instruction length (2 for a compressed instruction,
/// whose low two bits are not both set, else 4) and `Some(0)` for a PC-relative instruction.
pub open spec fn spec_disasm(code: Seq<u8>) -> Result<(usize, Option<usize>), HookError> {
    if code.len() < 2 {
        Err(HookError::TruncatedInstruction)
    } else if (halfword(code) & 0x3u16) as u8 != 0x3u8 {
        Ok((2, if compressed_is_pc_relative(halfword(code)) { Some(0) } else { None }))
    } else if code.len() < 4 {
        Err(HookError::TruncatedInstruction)
    } else {
        Ok((4, if standard_is_pc_relative(word(code)) { Some(0) } else { None }))
    }
}

/// Decode one instruction from `code`.
///
/// Returns `(len, relocation_opcode_offset)` where `relocation_opcode_offset` is `Some(0)` when
/// the instruction is PC-relative and needs relocation.
pub fn disasm(code: &[u8]) -> (r: Result<(usize, Option<usize>), HookError>)
    ensures
        r == spec_disasm(code@),
{
    if code.len() < 2 {
        return Err(HookError::TruncatedInstruction);
    }
    let low16: u16 = (code[0] as u16) | ((code[1] as u16) << 8);
    let quadrant = (low16 & 0x3) as u8;
    // Compressed instructions have bits [1:0] != 0b11
    if quadrant != 0x3 {
        return disasm_compressed(low16);
    }
    if code.len() < 4 {
        return Err(HookError::TruncatedInstruction);
    }
    let insn: u32 = (code[0] as u32) | ((code[1] as u32) << 8) | ((code[2] as u32) << 16) | ((
    code[3] as u32) << 24);
    disasm_standard(insn)
}

fn disasm_compressed(insn: u16) -> (r: Result<(usize, Option<usize>), HookError>)
    ensures
        r == Ok::<(usize, Option<usize>), HookError>(
            (
                2,
                if compressed_is_pc_relative(insn) {
                    Some(0)
                } else {
                    None
                },
            ),
        ),
{
    let quadrant = (insn & 0x3) as u8;
    let funct3 = ((insn >> 13) & 0x7) as u8;
    let needs_relocation = if quadrant == QUADRANT_C1 {
        // C.J, C.JAL, C.BEQZ, C.BNEZ
        funct3 == 1 || funct3 == 5 || funct3 == 6 || funct3 == 7
    } else {
        // quadrant 2 holds C.JR and C.JALR, which are indirect, not PC-relative
        false
    };
    let relocation_offset = if needs_relocation {
        Some(0)
    } else {
        None
    };
    Ok((2, relocation_offset))
}

fn disasm_standard(insn: u32) -> (r: Result<(usize, Option<usize>), HookError>)
    ensures
        r == Ok::<(usize, Option<usize>), HookError>(
            (
                4,
                if standard_is_pc_relative(insn) {
                    Some(0)
                } else {
                    None
                },
            ),
        ),
{
    let opcode = (insn & 0x7F) as u8;
    let needs_relocation = opcode == OPCODE_AUIPC || opcode == OPCODE_JAL || opcode == OPCODE_BRANCH;
    let relocation_offset = if needs_relocation {
        Some(0)
    } else {
        None
    };
    Ok((4, relocation_offset))
}

/// The length of an instruction is told by its first byte alone: 2 when its low two bits are
/// not both set, else 4; only a truncated input fails.
pub proof fn lemma_disasm_len(code: Seq<u8>)
    ensures
        code.len() >= 2 && code[0] & 0x3u8 != 0x3u8 ==> spec_disasm(code) matches Ok((2, _)),
        code.len() >= 4 && code[0] & 0x3u8 == 0x3u8 ==> spec_disasm(code) matches Ok((4, _)),
        spec_disasm(code) is Err <==> code.len() < 2 || (code.len() < 4 && code[0] & 0x3u8
            == 0x3u8),
{
    if code.len() >= 2 {
        let b0 = code[0];
        let b1 = code[1];
        assert(((((b0 as u16) | ((b1 as u16) << 8u16)) & 0x3u16) as u8 != 0x3u8) == (b0 & 0x3u8
            != 0x3u8)) by (bit_vector);
    }
}

/// Decoding reads only the instruction's own bytes: an instruction that decodes decodes the same
/// whatever follows it.
pub proof fn lemma_disasm_own_bytes(code: Seq<u8>, extra: Seq<u8>)
    ensures
        spec_disasm(code) is Ok ==> spec_disasm(code + extra) == spec_disasm(code),
{
    let c = code + extra;
    if code.len() >= 2 {
        assert(c[0] == code[0] && c[1] == code[1]);
        if code.len() >= 4 {
            assert(c[2] == code[2] && c[3] == code[3]);
        }
    }
}

/// Which instructions the decoder reports as PC-relative, told from the raw bytes: a compressed
/// instruction (low two bits of its first byte not both set) is 2 bytes long and needs
/// relocation exactly when it is in quadrant 1 with funct3 (the top three bits of its second
/// byte) 1, 5, 6 or 7, that is C.JAL, C.J, C.BEQZ or C.BNEZ; a 32-bit instruction is 4 bytes
/// long and needs relocation exactly when its opcode (low seven bits) is AUIPC (0x17), JAL
/// (0x6F) or a branch (0x63). Every other instruction, JALR and C.ADDI16SP among them, is
/// reported as `None`.
pub proof fn lemma_disasm_pc_relative(code: Seq<u8>)
    requires
        code.len() >= 2,
    ensures
        code[0] & 3u8 != 3u8 ==> spec_disasm(code) == Ok::<(usize, Option<usize>), HookError>(
            (
                2,
                if code[0] & 3u8 == 1u8 && (code[1] >> 5u8 == 1u8 || code[1] >> 5u8 == 5u8 || code[1]
                    >> 5u8 == 6u8 || code[1] >> 5u8 == 7u8) {
                    Some(0)
                } else {
                    None
                },
            ),
        ),
        code.len() >= 4 && code[0] & 3u8 == 3u8 ==> spec_disasm(code) == Ok::<
            (usize, Option<usize>),
            HookError,
        >(
            (
                4,
                if code[0] & 0x7Fu8 == 0x17u8 || code[0] & 0x7Fu8 == 0x6Fu8 || code[0] & 0x7Fu8
                    == 0x63u8 {
                    Some(0)
                } else {
                    None
                },
            ),
        ),
{
    let b0 = code[0];
    let b1 = code[1];
    let h = halfword(code);
    assert((h & 0x3u16) as u8 == b0 & 3u8 && ((h >> 13u16) & 0x7u16) as u8 == b1 >> 5u8)
        by (bit_vector)
        requires
            h == (b0 as u16) | ((b1 as u16) << 8u16),
    ;
    if code.len() >= 4 {
        let b2 = code[2];
        let b3 = code[3];
        let w = word(code);
        assert(w == u32_from_le(b0, b1, b2, b3));
        assert((w & 0x7Fu32) as u8 == b0 & 0x7Fu8) by (bit_vector)
            requires
                w == (b0 as u32) | ((b1 as u32) << 8u32) | ((b2 as u32) << 16u32) | ((b3 as u32)
                    << 24u32),
        ;
    }
}

} // verus!
