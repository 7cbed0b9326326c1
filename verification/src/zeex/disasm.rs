//! The x86-64 instruction-length decoder of the Zeex layout, with its smaller opcode tables.
//! It reports the offset of a rel32 operand that needs relocation.

use vstd::prelude::*;
use crate::error::HookError;
use crate::x86::decode::{
    byte_at, find_code, find_entry, first_code, first_match, get_byte, is_endbr, is_legacy_prefix,
    lemma_byte_at_after, lemma_no_legacy_prefix, lemma_scan_modrm_after, long_mode,
    lemma_first_code_bounds, lemma_first_match_bounds, lemma_scan_all_prefixes, lemma_scan_modrm,
    scan_all_prefixes, scan_modrm, skip_modrm, skip_prefixes, starts_with_endbr,
    FLAG_IMMEDIATE_16BIT, FLAG_IMMEDIATE_32BIT, FLAG_IMMEDIATE_8BIT, FLAG_MODRM, FLAG_PLUS_REGISTER,
    FLAG_REGISTER_OPCODE, FLAG_RELOCATION,
    MAX_DECODED_LEN,
};

verus! {

/// One-byte opcode table: opcode byte of each entry, in lookup order.
pub const ONE_BYTE_CODES: [u8; 90] = [
    // ADD
    0x04, 0x05, 0x80, 0x81, 0x83, 0x00, 0x01, 0x02, 0x03,
    // AND
    0x24, 0x25, 0x80, 0x81, 0x83, 0x20, 0x21, 0x22, 0x23,
    // CALL
    0xE8, 0xFF,
    // CMP
    0x83, 0x39, 0x3D,
    // DEC
    0xFF, 0x48,
    // ENTER
    0xC8,
    // FLD
    0xD9, 0xDD, 0xDB,
    // INT3
    0xCC,
    // JMP
    0xE9, 0xFF,
    // LEA
    0x8D,
    // LEAVE
    0xC9,
    // MOV
    0x88, 0x89, 0x8A, 0x8B, 0x8C, 0x8E, 0xA0, 0xA1, 0xA2, 0xA3, 0xB0, 0xB8, 0xC6, 0xC7,
    // NOP
    0x90,
    // OR
    0x0C, 0x0D, 0x80, 0x81, 0x83, 0x08, 0x09, 0x0A, 0x0B,
    // POP
    0x8F, 0x58,
    // PUSH
    0xFF, 0x50, 0x6A, 0x68,
    // RET
    0xC3, 0xC2,
    // SUB
    0x2C, 0x2D, 0x80, 0x81, 0x83, 0x28, 0x29, 0x2A, 0x2B,
    // TEST
    0xA8, 0xA9, 0xF6, 0xF7, 0x84, 0x85,
    // XOR
    0x34, 0x35, 0x80, 0x81, 0x83, 0x30, 0x31, 0x32, 0x33,
];

/// One-byte opcode table: ModRM reg field that selects the entry (with FLAG_REGISTER_OPCODE) of each entry, in lookup order.
pub const ONE_BYTE_REGS: [u8; 90] = [
    // ADD
    0, 0, 0, 0, 0, 0, 0, 0, 0,
    // AND
    0, 0, 4, 4, 4, 0, 0, 0, 0,
    // CALL
    0, 2,
    // CMP
    7, 0, 0,
    // DEC
    1, 0,
    // ENTER
    0,
    // FLD
    0, 0, 5,
    // INT3
    0,
    // JMP
    0, 4,
    // LEA
    0,
    // LEAVE
    0,
    // MOV
    0, 0, 0, 0, 0, 0, 0, 0, 0, 0, 0, 0, 0, 0,
    // NOP
    0,
    // OR
    0, 0, 1, 1, 1, 0, 0, 0, 0,
    // POP
    0, 0,
    // PUSH
    6, 0, 0, 0,
    // RET
    0, 0,
    // SUB
    0, 0, 5, 5, 5, 0, 0, 0, 0,
    // TEST
    0, 0, 0, 0, 0, 0,
    // XOR
    0, 0, 6, 6, 6, 0, 0, 0, 0,
];

/// One-byte opcode table: decoding flags of each entry, in lookup order.
pub const ONE_BYTE_FLAGS: [u8; 90] = [
    // ADD
    FLAG_IMMEDIATE_8BIT,
    FLAG_IMMEDIATE_32BIT,
    FLAG_MODRM | FLAG_REGISTER_OPCODE | FLAG_IMMEDIATE_8BIT,
    FLAG_MODRM | FLAG_REGISTER_OPCODE | FLAG_IMMEDIATE_32BIT,
    FLAG_MODRM | FLAG_REGISTER_OPCODE | FLAG_IMMEDIATE_8BIT,
    FLAG_MODRM,
    FLAG_MODRM,
    FLAG_MODRM,
    FLAG_MODRM,
    // AND
    FLAG_IMMEDIATE_8BIT,
    FLAG_IMMEDIATE_32BIT,
    FLAG_MODRM | FLAG_REGISTER_OPCODE | FLAG_IMMEDIATE_8BIT,
    FLAG_MODRM | FLAG_REGISTER_OPCODE | FLAG_IMMEDIATE_32BIT,
    FLAG_MODRM | FLAG_REGISTER_OPCODE | FLAG_IMMEDIATE_8BIT,
    FLAG_MODRM,
    FLAG_MODRM,
    FLAG_MODRM,
    FLAG_MODRM,
    // CALL
    FLAG_IMMEDIATE_32BIT | FLAG_RELOCATION,
    FLAG_MODRM | FLAG_REGISTER_OPCODE,
    // CMP
    FLAG_MODRM | FLAG_REGISTER_OPCODE | FLAG_IMMEDIATE_8BIT,
    FLAG_MODRM,
    FLAG_IMMEDIATE_32BIT,
    // DEC
    FLAG_MODRM | FLAG_REGISTER_OPCODE,
    FLAG_PLUS_REGISTER,
    // ENTER
    FLAG_IMMEDIATE_16BIT | FLAG_IMMEDIATE_8BIT,
    // FLD
    FLAG_MODRM | FLAG_REGISTER_OPCODE,
    FLAG_MODRM | FLAG_REGISTER_OPCODE,
    FLAG_MODRM | FLAG_REGISTER_OPCODE,
    // INT3
    0,
    // JMP
    FLAG_IMMEDIATE_32BIT | FLAG_RELOCATION,
    FLAG_MODRM | FLAG_REGISTER_OPCODE,
    // LEA
    FLAG_MODRM,
    // LEAVE
    0,
    // MOV
    FLAG_MODRM,
    FLAG_MODRM,
    FLAG_MODRM,
    FLAG_MODRM,
    FLAG_MODRM,
    FLAG_MODRM,
    FLAG_IMMEDIATE_8BIT,
    FLAG_IMMEDIATE_32BIT,
    FLAG_IMMEDIATE_8BIT,
    FLAG_IMMEDIATE_32BIT,
    FLAG_PLUS_REGISTER | FLAG_IMMEDIATE_8BIT,
    FLAG_PLUS_REGISTER | FLAG_IMMEDIATE_32BIT,
    FLAG_MODRM | FLAG_REGISTER_OPCODE | FLAG_IMMEDIATE_8BIT,
    FLAG_MODRM | FLAG_REGISTER_OPCODE | FLAG_IMMEDIATE_32BIT,
    // NOP
    0,
    // OR
    FLAG_IMMEDIATE_8BIT,
    FLAG_IMMEDIATE_32BIT,
    FLAG_MODRM | FLAG_REGISTER_OPCODE | FLAG_IMMEDIATE_8BIT,
    FLAG_MODRM | FLAG_REGISTER_OPCODE | FLAG_IMMEDIATE_32BIT,
    FLAG_MODRM | FLAG_REGISTER_OPCODE | FLAG_IMMEDIATE_8BIT,
    FLAG_MODRM,
    FLAG_MODRM,
    FLAG_MODRM,
    FLAG_MODRM,
    // POP
    FLAG_MODRM | FLAG_REGISTER_OPCODE,
    FLAG_PLUS_REGISTER,
    // PUSH
    FLAG_MODRM | FLAG_REGISTER_OPCODE,
    FLAG_PLUS_REGISTER,
    FLAG_IMMEDIATE_8BIT,
    FLAG_IMMEDIATE_32BIT,
    // RET
    0,
    FLAG_IMMEDIATE_16BIT,
    // SUB
    FLAG_IMMEDIATE_8BIT,
    FLAG_IMMEDIATE_32BIT,
    FLAG_MODRM | FLAG_REGISTER_OPCODE | FLAG_IMMEDIATE_8BIT,
    FLAG_MODRM | FLAG_REGISTER_OPCODE | FLAG_IMMEDIATE_32BIT,
    FLAG_MODRM | FLAG_REGISTER_OPCODE | FLAG_IMMEDIATE_8BIT,
    FLAG_MODRM,
    FLAG_MODRM,
    FLAG_MODRM,
    FLAG_MODRM,
    // TEST
    FLAG_IMMEDIATE_8BIT,
    FLAG_IMMEDIATE_32BIT,
    FLAG_MODRM | FLAG_REGISTER_OPCODE | FLAG_IMMEDIATE_8BIT,
    FLAG_MODRM | FLAG_REGISTER_OPCODE | FLAG_IMMEDIATE_32BIT,
    FLAG_MODRM,
    FLAG_MODRM,
    // XOR
    FLAG_IMMEDIATE_8BIT,
    FLAG_IMMEDIATE_32BIT,
    FLAG_MODRM | FLAG_REGISTER_OPCODE | FLAG_IMMEDIATE_8BIT,
    FLAG_MODRM | FLAG_REGISTER_OPCODE | FLAG_IMMEDIATE_32BIT,
    FLAG_MODRM | FLAG_REGISTER_OPCODE | FLAG_IMMEDIATE_8BIT,
    FLAG_MODRM,
    FLAG_MODRM,
    FLAG_MODRM,
    FLAG_MODRM,
];

/// Two-byte (0F-escaped) opcode table: opcode byte of each entry, in lookup order.
pub const TWO_BYTE_CODES: [u8; 25] = [
    // MOVUPS xmm, xmm/mem  /  MOVUPS xmm/mem, xmm
    0x10, 0x11,
    // Multi-byte NOP  (0F 1F /0)
    0x1F,
    // MOVAPS xmm, xmm/mem  /  MOVAPS xmm/mem, xmm
    0x28, 0x29,
    // CMOVcc r, r/m  (40–4F)
    0x40, 0x41, 0x42, 0x43, 0x44, 0x45, 0x46, 0x47, 0x48, 0x49, 0x4A, 0x4B, 0x4C, 0x4D, 0x4E,
    0x4F,
    // MOVZX r, r/m8  /  MOVZX r, r/m16
    0xB6, 0xB7,
    // MOVSX r, r/m8  /  MOVSX r, r/m16
    0xBE, 0xBF,
];

/// Two-byte (0F-escaped) opcode table: ModRM reg field that selects the entry (with FLAG_REGISTER_OPCODE) of each entry, in lookup order.
pub const TWO_BYTE_REGS: [u8; 25] = [
    // MOVUPS xmm, xmm/mem  /  MOVUPS xmm/mem, xmm
    0, 0,
    // Multi-byte NOP  (0F 1F /0)
    0,
    // MOVAPS xmm, xmm/mem  /  MOVAPS xmm/mem, xmm
    0, 0,
    // CMOVcc r, r/m  (40–4F)
    0, 0, 0, 0, 0, 0, 0, 0, 0, 0, 0, 0, 0, 0, 0, 0,
    // MOVZX r, r/m8  /  MOVZX r, r/m16
    0, 0,
    // MOVSX r, r/m8  /  MOVSX r, r/m16
    0, 0,
];

/// Two-byte (0F-escaped) opcode table: decoding flags of each entry, in lookup order.
pub const TWO_BYTE_FLAGS: [u8; 25] = [
    // MOVUPS xmm, xmm/mem  /  MOVUPS xmm/mem, xmm
    FLAG_MODRM,
    FLAG_MODRM,
    // Multi-byte NOP  (0F 1F /0)
    FLAG_MODRM | FLAG_REGISTER_OPCODE,
    // MOVAPS xmm, xmm/mem  /  MOVAPS xmm/mem, xmm
    FLAG_MODRM,
    FLAG_MODRM,
    // CMOVcc r, r/m  (40–4F)
    FLAG_MODRM,
    FLAG_MODRM,
    FLAG_MODRM,
    FLAG_MODRM,
    FLAG_MODRM,
    FLAG_MODRM,
    FLAG_MODRM,
    FLAG_MODRM,
    FLAG_MODRM,
    FLAG_MODRM,
    FLAG_MODRM,
    FLAG_MODRM,
    FLAG_MODRM,
    FLAG_MODRM,
    FLAG_MODRM,
    FLAG_MODRM,
    // MOVZX r, r/m8  /  MOVZX r, r/m16
    FLAG_MODRM,
    FLAG_MODRM,
    // MOVSX r, r/m8  /  MOVSX r, r/m16
    FLAG_MODRM,
    FLAG_MODRM,
];

/// Position of a RIP-relative displacement as a byte offset, else `other`.
pub open spec fn rip_offset(rip: Option<int>, other: Option<usize>) -> Option<usize> {
    match rip {
        Some(q) => Some(q as usize),
        None => other,
    }
}

/// What `disasm` returns for `code`: the length of the first instruction and, when it holds a
/// rel32 operand that needs relocation, the byte offset where that operand starts.
pub open spec fn spec_disasm(code: Seq<u8>) -> Result<(usize, Option<usize>), HookError> {
    if is_endbr(code) {
        Ok((4, None))
    } else {
        let (pos, size) = scan_all_prefixes(code);
        match byte_at(code, pos) {
            None => Err(HookError::TruncatedInstruction),
            Some(op) => if op == 0x0Fu8 {
                match byte_at(code, pos + 1) {
                    None => Err(HookError::TruncatedInstruction),
                    Some(op2) => match first_code(TWO_BYTE_CODES@, op2, 0) {
                        None => Err(HookError::UnknownInstruction(op2)),
                        Some(i) => if TWO_BYTE_FLAGS@[i] & FLAG_MODRM != 0 {
                            match scan_modrm(code, pos + 2) {
                                Err(e) => Err(e),
                                Ok((end, rip)) => Ok((end as usize, rip_offset(rip, None))),
                            }
                        } else {
                            Ok(((pos + 2) as usize, None))
                        },
                    },
                }
            } else {
                match first_match(
                    ONE_BYTE_CODES@,
                    ONE_BYTE_REGS@,
                    ONE_BYTE_FLAGS@,
                    op,
                    byte_at(code, pos + 1),
                    0,
                ) {
                    None => Err(HookError::UnknownInstruction(op)),
                    Some(i) => {
                        let f = ONE_BYTE_FLAGS@[i];
                        let imm = if f & FLAG_RELOCATION != 0 {
                            Some((pos + 1) as usize)
                        } else {
                            None
                        };
                        let operands: Result<(int, Option<usize>), HookError> = if f & FLAG_MODRM
                            != 0 {
                            match scan_modrm(code, pos + 1) {
                                Err(e) => Err(e),
                                Ok((end, rip)) => Ok((end, rip_offset(rip, imm))),
                            }
                        } else {
                            Ok((pos + 1, imm))
                        };
                        match operands {
                            Err(e) => Err(e),
                            Ok((p, reloc)) => {
                                let end = p + (if f & FLAG_IMMEDIATE_8BIT != 0 {
                                    1int
                                } else {
                                    0int
                                }) + (if f & FLAG_IMMEDIATE_16BIT != 0 {
                                    2int
                                } else {
                                    0int
                                }) + (if f & FLAG_IMMEDIATE_32BIT != 0 {
                                    size
                                } else {
                                    0int
                                });
                                Ok((end as usize, reloc))
                            },
                        }
                    },
                }
            },
        }
    }
}

/// Every instruction that decodes has a length between 1 and `MAX_DECODED_LEN`, and a rel32
/// operand to relocate starts inside it, after the first byte.
pub proof fn lemma_disasm_len(code: Seq<u8>)
    ensures
        spec_disasm(code) matches Ok((n, r)) ==> {
            &&& 1 <= n <= MAX_DECODED_LEN
            &&& (r matches Some(k) ==> 1 <= k <= n)
        },
{
    lemma_scan_all_prefixes(code);
    let (pos, size) = scan_all_prefixes(code);
    if !is_endbr(code) {
        if let Some(op) = byte_at(code, pos) {
            if op == 0x0Fu8 {
                lemma_scan_modrm(code, pos + 2);
                if let Some(op2) = byte_at(code, pos + 1) {
                    lemma_first_code_bounds(TWO_BYTE_CODES@, op2, 0);
                }
            } else {
                lemma_scan_modrm(code, pos + 1);
                lemma_first_match_bounds(
                    ONE_BYTE_CODES@,
                    ONE_BYTE_REGS@,
                    ONE_BYTE_FLAGS@,
                    op,
                    byte_at(code, pos + 1),
                    0,
                );
            }
        }
    }
}

/// Decode one instruction from `code`.
///
/// Returns `(len, relocation_opcode_offset)` where `relocation_opcode_offset` is `Some(n)` when
/// byte `n` of the instruction starts a rel32 operand that needs relocation.
pub fn disasm(code: &[u8]) -> (r: Result<(usize, Option<usize>), HookError>)
    ensures
        r == spec_disasm(code@),
        r matches Ok((len, _)) ==> 1 <= len <= MAX_DECODED_LEN,
{
    if starts_with_endbr(code) {
        return Ok((4, None));
    }
    let (mut pos, size) = skip_prefixes(code);
    let raw_opcode = match get_byte(code, pos) {
        Some(b) => b,
        None => return Err(HookError::TruncatedInstruction),
    };
    // Two-byte escape
    if raw_opcode == 0x0F {
        pos = pos + 1;
        let opcode2 = match get_byte(code, pos) {
            Some(b) => b,
            None => return Err(HookError::TruncatedInstruction),
        };
        let i = match find_code(TWO_BYTE_CODES.as_slice(), opcode2) {
            Some(i) => i,
            None => return Err(HookError::UnknownInstruction(opcode2)),
        };
        pos = pos + 1;
        if TWO_BYTE_FLAGS[i] & FLAG_MODRM != 0 {
            let (end, rip) = skip_modrm(code, pos)?;
            return Ok((end, rip));
        }
        return Ok((pos, None));
    }
    let next = get_byte(code, pos + 1);
    let i = match find_entry(
        ONE_BYTE_CODES.as_slice(),
        ONE_BYTE_REGS.as_slice(),
        ONE_BYTE_FLAGS.as_slice(),
        raw_opcode,
        next,
    ) {
        Some(i) => i,
        None => return Err(HookError::UnknownInstruction(raw_opcode)),
    };
    let f = ONE_BYTE_FLAGS[i];
    pos = pos + 1;
    let mut reloc: Option<usize> = None;
    if f & FLAG_RELOCATION != 0 {
        reloc = Some(pos);
    }
    if f & FLAG_MODRM != 0 {
        let (end, rip) = skip_modrm(code, pos)?;
        if rip.is_some() {
            reloc = rip;
        }
        pos = end;
    }
    if f & FLAG_IMMEDIATE_8BIT != 0 {
        pos = pos + 1;
    }
    if f & FLAG_IMMEDIATE_16BIT != 0 {
        pos = pos + 2;
    }
    if f & FLAG_IMMEDIATE_32BIT != 0 {
        pos = pos + size;
    }
    Ok((pos, reloc))
}

/// The decoding of an instruction after one more byte was put in front of it: one byte longer,
/// a rel32 operand one byte further on, any error unchanged.
pub open spec fn one_byte_later(r: Result<(usize, Option<usize>), HookError>) -> Result<(usize, Option<usize>), HookError> {
    match r {
        Ok((n, h)) => Ok((
            (n + 1) as usize,
            match h {
                Some(k) => Some((k + 1) as usize),
                None => None,
            },
        )),
        Err(e) => Err(e),
    }
}

/// In 64-bit mode a REX prefix without the W bit (0x40-0x47) in front of an instruction that has
/// no prefix of its own is skipped: the instruction decodes as without it, one byte longer,
/// with any rel32 operand one byte further on. `push r12` (41 54) decodes as `push rsp` (54),
/// two bytes long.
pub proof fn lemma_rex_prefix_skipped(rex: u8, c: Seq<u8>)
    requires
        long_mode(),
        0x40u8 <= rex <= 0x47u8,
        c.len() >= 1,
        !is_legacy_prefix(c[0]),
        !(0x40u8 <= c[0] <= 0x4Fu8),
    ensures
        spec_disasm(seq![rex] + c) == one_byte_later(spec_disasm(c)),
{
    let code = seq![rex] + c;
    let b = c[0];
    assert(code[0] == rex);
    lemma_byte_at_after(rex, c, 0);
    lemma_byte_at_after(rex, c, 1);
    lemma_byte_at_after(rex, c, 2);
    lemma_no_legacy_prefix(code, 0, 4);
    lemma_no_legacy_prefix(c, 0, 4);
    assert((rex & 0xF0u8) == 0x40u8 && rex & 0x08u8 == 0u8) by (bit_vector)
        requires
            0x40u8 <= rex <= 0x47u8,
    ;
    assert((b & 0xF0u8) != 0x40u8) by (bit_vector)
        requires
            !(0x40u8 <= b <= 0x4Fu8),
    ;
    assert(scan_all_prefixes(code) == (1int, 4int));
    assert(scan_all_prefixes(c) == (0int, 4int));
    assert(!is_endbr(code));
    assert(!is_endbr(c));
    assert(byte_at(code, 1) == Some(b));
    lemma_scan_modrm_after(rex, c, 1);
    lemma_scan_modrm_after(rex, c, 2);
    lemma_scan_modrm(c, 1);
    lemma_scan_modrm(c, 2);
    if b == 0x0Fu8 {
        if let Some(op2) = byte_at(c, 1) {
            lemma_first_code_bounds(TWO_BYTE_CODES@, op2, 0);
        }
    } else {
        lemma_first_match_bounds(ONE_BYTE_CODES@, ONE_BYTE_REGS@, ONE_BYTE_FLAGS@, b, byte_at(c, 1), 0);
    }
}

} // verus!
