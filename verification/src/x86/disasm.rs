//! Instruction-length decoder for x86 / x86-64 code, with the relocation that an instruction
//! needs when it is copied into a trampoline.

use vstd::prelude::*;
use crate::error::HookError;
use crate::zeex::disasm as zeex;
use crate::x86::decode::{
    byte_at, entry_matches, find_code, find_entry, first_code, first_match, get_byte, is_endbr,
    is_legacy_prefix, lemma_byte_at_after, lemma_no_legacy_prefix, lemma_scan_modrm_after,
    long_mode, lemma_first_code_bounds, lemma_first_match_bounds, lemma_scan_all_prefixes, lemma_scan_modrm,
    scan_all_prefixes, scan_modrm, skip_modrm, skip_prefixes, starts_with_endbr,
    FLAG_IMMEDIATE_16BIT, FLAG_IMMEDIATE_32BIT, FLAG_IMMEDIATE_8BIT, FLAG_MODRM, FLAG_PLUS_REGISTER,
    FLAG_REGISTER_OPCODE, FLAG_RELOCATION,
    MAX_DECODED_LEN,
};

verus! {

/// One-byte opcode table: opcode byte of each entry, in lookup order.
pub const ONE_BYTE_CODES: [u8; 163] = [
    // ADD
    0x04, 0x05, 0x80, 0x81, 0x83, 0x00, 0x01, 0x02, 0x03,
    // AND
    0x24, 0x25, 0x80, 0x81, 0x83, 0x20, 0x21, 0x22, 0x23,
    // CALL
    0xE8, 0xFF,
    // CMP
    0x83, 0x39, 0x3D,
    // DEC
    0xFF, 0x48,
    // ENTER
    0xC8,
    // FLD
    0xD9, 0xDD, 0xDB,
    // INT3
    0xCC,
    // JMP
    0xE9, 0xFF,
    // LEA
    0x8D,
    // LEAVE
    0xC9,
    // MOV
    0x88, 0x89, 0x8A, 0x8B, 0x8C, 0x8E, 0xA0, 0xA1, 0xA2, 0xA3, 0xB0, 0xB8, 0xC6, 0xC7,
    // NOP
    0x90,
    // OR
    0x0C, 0x0D, 0x80, 0x81, 0x83, 0x08, 0x09, 0x0A, 0x0B,
    // POP
    0x8F, 0x58,
    // PUSH
    0xFF, 0x50, 0x6A, 0x68,
    // RET
    0xC3, 0xC2,
    // SUB
    0x2C, 0x2D, 0x80, 0x81, 0x83, 0x28, 0x29, 0x2A, 0x2B,
    // TEST
    0xA8, 0xA9, 0xF6, 0xF7, 0x84, 0x85,
    // XOR
    0x34, 0x35, 0x80, 0x81, 0x83, 0x30, 0x31, 0x32, 0x33,
    // JMP short rel8
    0xEB,
    // Jcc short rel8 (0x70-0x7F): JO JNO JB JAE JE JNE JBE JA JS JNS JP JNP JL JGE JLE JG
    0x70, 0x71, 0x72, 0x73, 0x74, 0x75, 0x76, 0x77, 0x78, 0x79, 0x7A, 0x7B, 0x7C, 0x7D, 0x7E,
    0x7F,
    // MOVSXD r64, r/m32
    0x63,
    // IMUL r, r/m, imm32
    0x69,
    // IMUL r, r/m, imm8
    0x6B,
    // Shift/Rotate group 2: C0=r/m8,imm8  C1=r/m,imm8  D0=r/m8,1  D1=r/m,1  D2=r/m8,CL  D3=r/m,CL
    0xC0, 0xC1, 0xD0, 0xD1, 0xD2, 0xD3,
    // NOT/NEG/MUL/IMUL/DIV/IDIV r/m8 (F6) and r/m (F7)
    0xF6, 0xF7,
    // INC/DEC r/m
    0xFE, 0xFE, 0xFF,
    // XCHG r/m, r
    0x86, 0x87,
    // XCHG rAX, r (91-97)
    0x90,
    // CBW/CWDE/CDQE
    0x98,
    // CDQ/CQO
    0x99,
    // PUSHFQ / POPFQ
    0x9C, 0x9D,
    // SAHF / LAHF
    0x9E, 0x9F,
    // ADC
    0x10, 0x11, 0x12, 0x13, 0x80, 0x81, 0x83,
    // SBB
    0x18, 0x19, 0x1A, 0x1B, 0x80, 0x81, 0x83,
    // CMP (extra forms)
    0x38, 0x3A, 0x3B, 0x81, 0x80,
    // MOVS/CMPS/SCAS/LODS/STOS
    0xA4, 0xA5, 0xA6, 0xA7, 0xAA, 0xAB, 0xAC, 0xAD, 0xAE, 0xAF,
    // CLC/STC/CLD/STD
    0xF8, 0xF9, 0xFC, 0xFD,
];

/// One-byte opcode table: ModRM reg field that selects the entry (with FLAG_REGISTER_OPCODE) of each entry, in lookup order.
pub const ONE_BYTE_REGS: [u8; 163] = [
    // ADD
    0, 0, 0, 0, 0, 0, 0, 0, 0,
    // AND
    0, 0, 4, 4, 4, 0, 0, 0, 0,
    // CALL
    0, 2,
    // CMP
    7, 0, 0,
    // DEC
    1, 0,
    // ENTER
    0,
    // FLD
    0, 0, 5,
    // INT3
    0,
    // JMP
    0, 4,
    // LEA
    0,
    // LEAVE
    0,
    // MOV
    0, 0, 0, 0, 0, 0, 0, 0, 0, 0, 0, 0, 0, 0,
    // NOP
    0,
    // OR
    0, 0, 1, 1, 1, 0, 0, 0, 0,
    // POP
    0, 0,
    // PUSH
    6, 0, 0, 0,
    // RET
    0, 0,
    // SUB
    0, 0, 5, 5, 5, 0, 0, 0, 0,
    // TEST
    0, 0, 0, 0, 0, 0,
    // XOR
    0, 0, 6, 6, 6, 0, 0, 0, 0,
    // JMP short rel8
    0,
    // Jcc short rel8 (0x70-0x7F): JO JNO JB JAE JE JNE JBE JA JS JNS JP JNP JL JGE JLE JG
    0, 0, 0, 0, 0, 0, 0, 0, 0, 0, 0, 0, 0, 0, 0, 0,
    // MOVSXD r64, r/m32
    0,
    // IMUL r, r/m, imm32
    0,
    // IMUL r, r/m, imm8
    0,
    // Shift/Rotate group 2: C0=r/m8,imm8  C1=r/m,imm8  D0=r/m8,1  D1=r/m,1  D2=r/m8,CL  D3=r/m,CL
    0, 0, 0, 0, 0, 0,
    // NOT/NEG/MUL/IMUL/DIV/IDIV r/m8 (F6) and r/m (F7)
    0, 0,
    // INC/DEC r/m
    0, 1, 0,
    // XCHG r/m, r
    0, 0,
    // XCHG rAX, r (91-97)
    0,
    // CBW/CWDE/CDQE
    0,
    // CDQ/CQO
    0,
    // PUSHFQ / POPFQ
    0, 0,
    // SAHF / LAHF
    0, 0,
    // ADC
    0, 0, 0, 0, 2, 2, 2,
    // SBB
    0, 0, 0, 0, 3, 3, 3,
    // CMP (extra forms)
    0, 0, 0, 7, 7,
    // MOVS/CMPS/SCAS/LODS/STOS
    0, 0, 0, 0, 0, 0, 0, 0, 0, 0,
    // CLC/STC/CLD/STD
    0, 0, 0, 0,
];

/// One-byte opcode table: decoding flags of each entry, in lookup order.
pub const ONE_BYTE_FLAGS: [u8; 163] = [
    // ADD
    FLAG_IMMEDIATE_8BIT,
    FLAG_IMMEDIATE_32BIT,
    FLAG_MODRM | FLAG_REGISTER_OPCODE | FLAG_IMMEDIATE_8BIT,
    FLAG_MODRM | FLAG_REGISTER_OPCODE | FLAG_IMMEDIATE_32BIT,
    FLAG_MODRM | FLAG_REGISTER_OPCODE | FLAG_IMMEDIATE_8BIT,
    FLAG_MODRM,
    FLAG_MODRM,
    FLAG_MODRM,
    FLAG_MODRM,
    // AND
    FLAG_IMMEDIATE_8BIT,
    FLAG_IMMEDIATE_32BIT,
    FLAG_MODRM | FLAG_REGISTER_OPCODE | FLAG_IMMEDIATE_8BIT,
    FLAG_MODRM | FLAG_REGISTER_OPCODE | FLAG_IMMEDIATE_32BIT,
    FLAG_MODRM | FLAG_REGISTER_OPCODE | FLAG_IMMEDIATE_8BIT,
    FLAG_MODRM,
    FLAG_MODRM,
    FLAG_MODRM,
    FLAG_MODRM,
    // CALL
    FLAG_IMMEDIATE_32BIT | FLAG_RELOCATION,
    FLAG_MODRM | FLAG_REGISTER_OPCODE,
    // CMP
    FLAG_MODRM | FLAG_REGISTER_OPCODE | FLAG_IMMEDIATE_8BIT,
    FLAG_MODRM,
    FLAG_IMMEDIATE_32BIT,
    // DEC
    FLAG_MODRM | FLAG_REGISTER_OPCODE,
    FLAG_PLUS_REGISTER,
    // ENTER
    FLAG_IMMEDIATE_16BIT | FLAG_IMMEDIATE_8BIT,
    // FLD
    FLAG_MODRM | FLAG_REGISTER_OPCODE,
    FLAG_MODRM | FLAG_REGISTER_OPCODE,
    FLAG_MODRM | FLAG_REGISTER_OPCODE,
    // INT3
    0,
    // JMP
    FLAG_IMMEDIATE_32BIT | FLAG_RELOCATION,
    FLAG_MODRM | FLAG_REGISTER_OPCODE,
    // LEA
    FLAG_MODRM,
    // LEAVE
    0,
    // MOV
    FLAG_MODRM,
    FLAG_MODRM,
    FLAG_MODRM,
    FLAG_MODRM,
    FLAG_MODRM,
    FLAG_MODRM,
    FLAG_IMMEDIATE_8BIT,
    FLAG_IMMEDIATE_32BIT,
    FLAG_IMMEDIATE_8BIT,
    FLAG_IMMEDIATE_32BIT,
    FLAG_PLUS_REGISTER | FLAG_IMMEDIATE_8BIT,
    FLAG_PLUS_REGISTER | FLAG_IMMEDIATE_32BIT,
    FLAG_MODRM | FLAG_REGISTER_OPCODE | FLAG_IMMEDIATE_8BIT,
    FLAG_MODRM | FLAG_REGISTER_OPCODE | FLAG_IMMEDIATE_32BIT,
    // NOP
    0,
    // OR
    FLAG_IMMEDIATE_8BIT,
    FLAG_IMMEDIATE_32BIT,
    FLAG_MODRM | FLAG_REGISTER_OPCODE | FLAG_IMMEDIATE_8BIT,
    FLAG_MODRM | FLAG_REGISTER_OPCODE | FLAG_IMMEDIATE_32BIT,
    FLAG_MODRM | FLAG_REGISTER_OPCODE | FLAG_IMMEDIATE_8BIT,
    FLAG_MODRM,
    FLAG_MODRM,
    FLAG_MODRM,
    FLAG_MODRM,
    // POP
    FLAG_MODRM | FLAG_REGISTER_OPCODE,
    FLAG_PLUS_REGISTER,
    // PUSH
    FLAG_MODRM | FLAG_REGISTER_OPCODE,
    FLAG_PLUS_REGISTER,
    FLAG_IMMEDIATE_8BIT,
    FLAG_IMMEDIATE_32BIT,
    // RET
    0,
    FLAG_IMMEDIATE_16BIT,
    // SUB
    FLAG_IMMEDIATE_8BIT,
    FLAG_IMMEDIATE_32BIT,
    FLAG_MODRM | FLAG_REGISTER_OPCODE | FLAG_IMMEDIATE_8BIT,
    FLAG_MODRM | FLAG_REGISTER_OPCODE | FLAG_IMMEDIATE_32BIT,
    FLAG_MODRM | FLAG_REGISTER_OPCODE | FLAG_IMMEDIATE_8BIT,
    FLAG_MODRM,
    FLAG_MODRM,
    FLAG_MODRM,
    FLAG_MODRM,
    // TEST
    FLAG_IMMEDIATE_8BIT,
    FLAG_IMMEDIATE_32BIT,
    FLAG_MODRM | FLAG_REGISTER_OPCODE | FLAG_IMMEDIATE_8BIT,
    FLAG_MODRM | FLAG_REGISTER_OPCODE | FLAG_IMMEDIATE_32BIT,
    FLAG_MODRM,
    FLAG_MODRM,
    // XOR
    FLAG_IMMEDIATE_8BIT,
    FLAG_IMMEDIATE_32BIT,
    FLAG_MODRM | FLAG_REGISTER_OPCODE | FLAG_IMMEDIATE_8BIT,
    FLAG_MODRM | FLAG_REGISTER_OPCODE | FLAG_IMMEDIATE_32BIT,
    FLAG_MODRM | FLAG_REGISTER_OPCODE | FLAG_IMMEDIATE_8BIT,
    FLAG_MODRM,
    FLAG_MODRM,
    FLAG_MODRM,
    FLAG_MODRM,
    // JMP short rel8
    FLAG_IMMEDIATE_8BIT,
    // Jcc short rel8 (0x70-0x7F): JO JNO JB JAE JE JNE JBE JA JS JNS JP JNP JL JGE JLE JG
    FLAG_IMMEDIATE_8BIT,
    FLAG_IMMEDIATE_8BIT,
    FLAG_IMMEDIATE_8BIT,
    FLAG_IMMEDIATE_8BIT,
    FLAG_IMMEDIATE_8BIT,
    FLAG_IMMEDIATE_8BIT,
    FLAG_IMMEDIATE_8BIT,
    FLAG_IMMEDIATE_8BIT,
    FLAG_IMMEDIATE_8BIT,
    FLAG_IMMEDIATE_8BIT,
    FLAG_IMMEDIATE_8BIT,
    FLAG_IMMEDIATE_8BIT,
    FLAG_IMMEDIATE_8BIT,
    FLAG_IMMEDIATE_8BIT,
    FLAG_IMMEDIATE_8BIT,
    FLAG_IMMEDIATE_8BIT,
    // MOVSXD r64, r/m32
    FLAG_MODRM,
    // IMUL r, r/m, imm32
    FLAG_MODRM | FLAG_IMMEDIATE_32BIT,
    // IMUL r, r/m, imm8
    FLAG_MODRM | FLAG_IMMEDIATE_8BIT,
    // Shift/Rotate group 2: C0=r/m8,imm8  C1=r/m,imm8  D0=r/m8,1  D1=r/m,1  D2=r/m8,CL  D3=r/m,CL
    FLAG_MODRM | FLAG_IMMEDIATE_8BIT,
    FLAG_MODRM | FLAG_IMMEDIATE_8BIT,
    FLAG_MODRM,
    FLAG_MODRM,
    FLAG_MODRM,
    FLAG_MODRM,
    // NOT/NEG/MUL/IMUL/DIV/IDIV r/m8 (F6) and r/m (F7)
    FLAG_MODRM,
    FLAG_MODRM,
    // INC/DEC r/m
    FLAG_MODRM | FLAG_REGISTER_OPCODE,
    FLAG_MODRM | FLAG_REGISTER_OPCODE,
    FLAG_MODRM | FLAG_REGISTER_OPCODE,
    // XCHG r/m, r
    FLAG_MODRM,
    FLAG_MODRM,
    // XCHG rAX, r (91-97)
    FLAG_PLUS_REGISTER,
    // CBW/CWDE/CDQE
    0,
    // CDQ/CQO
    0,
    // PUSHFQ / POPFQ
    0,
    0,
    // SAHF / LAHF
    0,
    0,
    // ADC
    FLAG_MODRM,
    FLAG_MODRM,
    FLAG_MODRM,
    FLAG_MODRM,
    FLAG_MODRM | FLAG_REGISTER_OPCODE | FLAG_IMMEDIATE_8BIT,
    FLAG_MODRM | FLAG_REGISTER_OPCODE | FLAG_IMMEDIATE_32BIT,
    FLAG_MODRM | FLAG_REGISTER_OPCODE | FLAG_IMMEDIATE_8BIT,
    // SBB
    FLAG_MODRM,
    FLAG_MODRM,
    FLAG_MODRM,
    FLAG_MODRM,
    FLAG_MODRM | FLAG_REGISTER_OPCODE | FLAG_IMMEDIATE_8BIT,
    FLAG_MODRM | FLAG_REGISTER_OPCODE | FLAG_IMMEDIATE_32BIT,
    FLAG_MODRM | FLAG_REGISTER_OPCODE | FLAG_IMMEDIATE_8BIT,
    // CMP (extra forms)
    FLAG_MODRM,
    FLAG_MODRM,
    FLAG_MODRM,
    FLAG_MODRM | FLAG_REGISTER_OPCODE | FLAG_IMMEDIATE_32BIT,
    FLAG_MODRM | FLAG_REGISTER_OPCODE | FLAG_IMMEDIATE_8BIT,
    // MOVS/CMPS/SCAS/LODS/STOS
    0,
    0,
    0,
    0,
    0,
    0,
    0,
    0,
    0,
    0,
    // CLC/STC/CLD/STD
    0,
    0,
    0,
    0,
];

/// Two-byte (0F-escaped) opcode table: opcode byte of each entry, in lookup order.
pub const TWO_BYTE_CODES: [u8; 123] = [
    // MOVUPS xmm, xmm/mem  /  MOVUPS xmm/mem, xmm
    0x10, 0x11,
    // Multi-byte NOP  (0F 1F /0)
    0x1F,
    // MOVAPS xmm, xmm/mem  /  MOVAPS xmm/mem, xmm
    0x28, 0x29,
    // CMOVcc r, r/m  (40–4F)
    0x40, 0x41, 0x42, 0x43, 0x44, 0x45, 0x46, 0x47, 0x48, 0x49, 0x4A, 0x4B, 0x4C, 0x4D, 0x4E,
    0x4F,
    // MOVZX r, r/m8  /  MOVZX r, r/m16
    0xB6, 0xB7,
    // MOVSX r, r/m8  /  MOVSX r, r/m16
    0xBE, 0xBF,
    // Jcc near rel32 (0F 80-0F 8F)
    0x80, 0x81, 0x82, 0x83, 0x84, 0x85, 0x86, 0x87, 0x88, 0x89, 0x8A, 0x8B, 0x8C, 0x8D, 0x8E,
    0x8F,
    // SETcc (0F 90-0F 9F)
    0x90, 0x91, 0x92, 0x93, 0x94, 0x95, 0x96, 0x97, 0x98, 0x99, 0x9A, 0x9B, 0x9C, 0x9D, 0x9E,
    0x9F,
    // BT/BTS/BTR/BTC r/m, r
    0xA3, 0xAB, 0xB3, 0xBB,
    // BT/BTS/BTR/BTC r/m, imm8 (0F BA /4-/7)
    0xBA, 0xBA, 0xBA, 0xBA,
    // IMUL r, r/m
    0xAF,
    // BSF / TZCNT (with F3 prefix)
    0xBC,
    // BSR / LZCNT (with F3 prefix)
    0xBD,
    // POPCNT (with F3 prefix)
    0xB8,
    // XADD r/m, r
    0xC0, 0xC1,
    // CMPPS/CMPSS/CMPPD/CMPSD xmm, xmm/m, imm8
    0xC2,
    // BSWAP r32/r64 (C8-CF, encoded as +rd in opcode)
    0xC8, 0xC9, 0xCA, 0xCB, 0xCC, 0xCD, 0xCE, 0xCF,
    // SSE scalar/packed arithmetic (ANDPS/ANDNPS/ORPS/XORPS/ADDPS/MULPS/SUBPS/MINPS/DIVPS/MAXPS)
    0x54, 0x55, 0x56, 0x57, 0x58, 0x59, 0x5A, 0x5B, 0x5C, 0x5D, 0x5E, 0x5F,
    // CVTPI2PS/CVTSI2SS/CVTPI2PD/CVTSI2SD
    0x2A,
    // CVTTPS2PI/CVTTSS2SI/CVTTPD2PI/CVTTSD2SI
    0x2C,
    // CVTPS2PI/CVTSS2SI/CVTPD2PI/CVTSD2SI
    0x2D,
    // UCOMISS/UCOMISD
    0x2E,
    // COMISS/COMISD
    0x2F,
    // SQRTPS/SQRTSS
    0x51,
    // RSQRTPS/RSQRTSS
    0x52,
    // RCPPS/RCPSS
    0x53,
    // MOVD/MOVQ xmm, r/m
    0x6E,
    // MOVDQA/MOVDQU xmm, xmm/m
    0x6F,
    // PSHUFD/PSHUFHW/PSHUFLW xmm, xmm/m, imm8
    0x70,
    // MOVD/MOVQ r/m, xmm
    0x7E,
    // MOVDQA/MOVDQU xmm/m, xmm
    0x7F,
    // MOVQ xmm, xmm/m64
    0xD6,
    // Integer SSE: PADDQ PMULLW PAND PANDN POR PXOR PMULUDQ
    0xD4, 0xD5, 0xDB, 0xDF, 0xEB, 0xEF, 0xF4,
    // MOVNTQ/MOVNTDQ
    0xE7,
    // SHLD r/m, r, imm8 / CL
    0xA4, 0xA5,
    // SHRD r/m, r, imm8 / CL
    0xAC, 0xAD,
    // RDTSC
    0x31,
    // PUSH FS/GS / POP FS/GS
    0xA0, 0xA1, 0xA8, 0xA9,
];

/// Two-byte (0F-escaped) opcode table: ModRM reg field that selects the entry (with FLAG_REGISTER_OPCODE) of each entry, in lookup order.
pub const TWO_BYTE_REGS: [u8; 123] = [
    // MOVUPS xmm, xmm/mem  /  MOVUPS xmm/mem, xmm
    0, 0,
    // Multi-byte NOP  (0F 1F /0)
    0,
    // MOVAPS xmm, xmm/mem  /  MOVAPS xmm/mem, xmm
    0, 0,
    // CMOVcc r, r/m  (40–4F)
    0, 0, 0, 0, 0, 0, 0, 0, 0, 0, 0, 0, 0, 0, 0, 0,
    // MOVZX r, r/m8  /  MOVZX r, r/m16
    0, 0,
    // MOVSX r, r/m8  /  MOVSX r, r/m16
    0, 0,
    // Jcc near rel32 (0F 80-0F 8F)
    0, 0, 0, 0, 0, 0, 0, 0, 0, 0, 0, 0, 0, 0, 0, 0,
    // SETcc (0F 90-0F 9F)
    0, 0, 0, 0, 0, 0, 0, 0, 0, 0, 0, 0, 0, 0, 0, 0,
    // BT/BTS/BTR/BTC r/m, r
    0, 0, 0, 0,
    // BT/BTS/BTR/BTC r/m, imm8 (0F BA /4-/7)
    4, 5, 6, 7,
    // IMUL r, r/m
    0,
    // BSF / TZCNT (with F3 prefix)
    0,
    // BSR / LZCNT (with F3 prefix)
    0,
    // POPCNT (with F3 prefix)
    0,
    // XADD r/m, r
    0, 0,
    // CMPPS/CMPSS/CMPPD/CMPSD xmm, xmm/m, imm8
    0,
    // BSWAP r32/r64 (C8-CF, encoded as +rd in opcode)
    0, 0, 0, 0, 0, 0, 0, 0,
    // SSE scalar/packed arithmetic (ANDPS/ANDNPS/ORPS/XORPS/ADDPS/MULPS/SUBPS/MINPS/DIVPS/MAXPS)
    0, 0, 0, 0, 0, 0, 0, 0, 0, 0, 0, 0,
    // CVTPI2PS/CVTSI2SS/CVTPI2PD/CVTSI2SD
    0,
    // CVTTPS2PI/CVTTSS2SI/CVTTPD2PI/CVTTSD2SI
    0,
    // CVTPS2PI/CVTSS2SI/CVTPD2PI/CVTSD2SI
    0,
    // UCOMISS/UCOMISD
    0,
    // COMISS/COMISD
    0,
    // SQRTPS/SQRTSS
    0,
    // RSQRTPS/RSQRTSS
    0,
    // RCPPS/RCPSS
    0,
    // MOVD/MOVQ xmm, r/m
    0,
    // MOVDQA/MOVDQU xmm, xmm/m
    0,
    // PSHUFD/PSHUFHW/PSHUFLW xmm, xmm/m, imm8
    0,
    // MOVD/MOVQ r/m, xmm
    0,
    // MOVDQA/MOVDQU xmm/m, xmm
    0,
    // MOVQ xmm, xmm/m64
    0,
    // Integer SSE: PADDQ PMULLW PAND PANDN POR PXOR PMULUDQ
    0, 0, 0, 0, 0, 0, 0,
    // MOVNTQ/MOVNTDQ
    0,
    // SHLD r/m, r, imm8 / CL
    0, 0,
    // SHRD r/m, r, imm8 / CL
    0, 0,
    // RDTSC
    0,
    // PUSH FS/GS / POP FS/GS
    0, 0, 0, 0,
];

/// Two-byte (0F-escaped) opcode table: decoding flags of each entry, in lookup order.
pub const TWO_BYTE_FLAGS: [u8; 123] = [
    // MOVUPS xmm, xmm/mem  /  MOVUPS xmm/mem, xmm
    FLAG_MODRM,
    FLAG_MODRM,
    // Multi-byte NOP  (0F 1F /0)
    FLAG_MODRM | FLAG_REGISTER_OPCODE,
    // MOVAPS xmm, xmm/mem  /  MOVAPS xmm/mem, xmm
    FLAG_MODRM,
    FLAG_MODRM,
    // CMOVcc r, r/m  (40–4F)
    FLAG_MODRM,
    FLAG_MODRM,
    FLAG_MODRM,
    FLAG_MODRM,
    FLAG_MODRM,
    FLAG_MODRM,
    FLAG_MODRM,
    FLAG_MODRM,
    FLAG_MODRM,
    FLAG_MODRM,
    FLAG_MODRM,
    FLAG_MODRM,
    FLAG_MODRM,
    FLAG_MODRM,
    FLAG_MODRM,
    FLAG_MODRM,
    // MOVZX r, r/m8  /  MOVZX r, r/m16
    FLAG_MODRM,
    FLAG_MODRM,
    // MOVSX r, r/m8  /  MOVSX r, r/m16
    FLAG_MODRM,
    FLAG_MODRM,
    // Jcc near rel32 (0F 80-0F 8F)
    FLAG_IMMEDIATE_32BIT | FLAG_RELOCATION,
    FLAG_IMMEDIATE_32BIT | FLAG_RELOCATION,
    FLAG_IMMEDIATE_32BIT | FLAG_RELOCATION,
    FLAG_IMMEDIATE_32BIT | FLAG_RELOCATION,
    FLAG_IMMEDIATE_32BIT | FLAG_RELOCATION,
    FLAG_IMMEDIATE_32BIT | FLAG_RELOCATION,
    FLAG_IMMEDIATE_32BIT | FLAG_RELOCATION,
    FLAG_IMMEDIATE_32BIT | FLAG_RELOCATION,
    FLAG_IMMEDIATE_32BIT | FLAG_RELOCATION,
    FLAG_IMMEDIATE_32BIT | FLAG_RELOCATION,
    FLAG_IMMEDIATE_32BIT | FLAG_RELOCATION,
    FLAG_IMMEDIATE_32BIT | FLAG_RELOCATION,
    FLAG_IMMEDIATE_32BIT | FLAG_RELOCATION,
    FLAG_IMMEDIATE_32BIT | FLAG_RELOCATION,
    FLAG_IMMEDIATE_32BIT | FLAG_RELOCATION,
    FLAG_IMMEDIATE_32BIT | FLAG_RELOCATION,
    // SETcc (0F 90-0F 9F)
    FLAG_MODRM,
    FLAG_MODRM,
    FLAG_MODRM,
    FLAG_MODRM,
    FLAG_MODRM,
    FLAG_MODRM,
    FLAG_MODRM,
    FLAG_MODRM,
    FLAG_MODRM,
    FLAG_MODRM,
    FLAG_MODRM,
    FLAG_MODRM,
    FLAG_MODRM,
    FLAG_MODRM,
    FLAG_MODRM,
    FLAG_MODRM,
    // BT/BTS/BTR/BTC r/m, r
    FLAG_MODRM,
    FLAG_MODRM,
    FLAG_MODRM,
    FLAG_MODRM,
    // BT/BTS/BTR/BTC r/m, imm8 (0F BA /4-/7)
    FLAG_MODRM | FLAG_REGISTER_OPCODE | FLAG_IMMEDIATE_8BIT,
    FLAG_MODRM | FLAG_REGISTER_OPCODE | FLAG_IMMEDIATE_8BIT,
    FLAG_MODRM | FLAG_REGISTER_OPCODE | FLAG_IMMEDIATE_8BIT,
    FLAG_MODRM | FLAG_REGISTER_OPCODE | FLAG_IMMEDIATE_8BIT,
    // IMUL r, r/m
    FLAG_MODRM,
    // BSF / TZCNT (with F3 prefix)
    FLAG_MODRM,
    // BSR / LZCNT (with F3 prefix)
    FLAG_MODRM,
    // POPCNT (with F3 prefix)
    FLAG_MODRM,
    // XADD r/m, r
    FLAG_MODRM,
    FLAG_MODRM,
    // CMPPS/CMPSS/CMPPD/CMPSD xmm, xmm/m, imm8
    FLAG_MODRM | FLAG_IMMEDIATE_8BIT,
    // BSWAP r32/r64 (C8-CF, encoded as +rd in opcode)
    0,
    0,
    0,
    0,
    0,
    0,
    0,
    0,
    // SSE scalar/packed arithmetic (ANDPS/ANDNPS/ORPS/XORPS/ADDPS/MULPS/SUBPS/MINPS/DIVPS/MAXPS)
    FLAG_MODRM,
    FLAG_MODRM,
    FLAG_MODRM,
    FLAG_MODRM,
    FLAG_MODRM,
    FLAG_MODRM,
    FLAG_MODRM,
    FLAG_MODRM,
    FLAG_MODRM,
    FLAG_MODRM,
    FLAG_MODRM,
    FLAG_MODRM,
    // CVTPI2PS/CVTSI2SS/CVTPI2PD/CVTSI2SD
    FLAG_MODRM,
    // CVTTPS2PI/CVTTSS2SI/CVTTPD2PI/CVTTSD2SI
    FLAG_MODRM,
    // CVTPS2PI/CVTSS2SI/CVTPD2PI/CVTSD2SI
    FLAG_MODRM,
    // UCOMISS/UCOMISD
    FLAG_MODRM,
    // COMISS/COMISD
    FLAG_MODRM,
    // SQRTPS/SQRTSS
    FLAG_MODRM,
    // RSQRTPS/RSQRTSS
    FLAG_MODRM,
    // RCPPS/RCPSS
    FLAG_MODRM,
    // MOVD/MOVQ xmm, r/m
    FLAG_MODRM,
    // MOVDQA/MOVDQU xmm, xmm/m
    FLAG_MODRM,
    // PSHUFD/PSHUFHW/PSHUFLW xmm, xmm/m, imm8
    FLAG_MODRM | FLAG_IMMEDIATE_8BIT,
    // MOVD/MOVQ r/m, xmm
    FLAG_MODRM,
    // MOVDQA/MOVDQU xmm/m, xmm
    FLAG_MODRM,
    // MOVQ xmm, xmm/m64
    FLAG_MODRM,
    // Integer SSE: PADDQ PMULLW PAND PANDN POR PXOR PMULUDQ
    FLAG_MODRM,
    FLAG_MODRM,
    FLAG_MODRM,
    FLAG_MODRM,
    FLAG_MODRM,
    FLAG_MODRM,
    FLAG_MODRM,
    // MOVNTQ/MOVNTDQ
    FLAG_MODRM,
    // SHLD r/m, r, imm8 / CL
    FLAG_MODRM | FLAG_IMMEDIATE_8BIT,
    FLAG_MODRM,
    // SHRD r/m, r, imm8 / CL
    FLAG_MODRM | FLAG_IMMEDIATE_8BIT,
    FLAG_MODRM,
    // RDTSC
    0,
    // PUSH FS/GS / POP FS/GS
    0,
    0,
    0,
    0,
];

/// How an instruction's relative operand must be fixed up when copied into a trampoline.
#[derive(Debug, Clone, Copy, PartialEq, Eq, Structural)]
pub enum RelocHint {
    /// A 4-byte relative operand starts at this byte offset within the instruction; subtract
    /// the distance the instruction moved.
    I32(usize),
    /// Short conditional jump (`7x disp8`), carrying its opcode; it must be expanded to
    /// `0F 8x disp32` (6 bytes).
    ShortJcc(u8),
    /// Short unconditional jump (`EB disp8`); it must be expanded to `E9 disp32` (5 bytes).
    ShortJmp,
}

/// Relocation of a RIP-relative displacement found at `rip`, else `other`.
pub open spec fn rip_hint(rip: Option<int>, other: Option<RelocHint>) -> Option<RelocHint> {
    match rip {
        Some(q) => Some(RelocHint::I32(q as usize)),
        None => other,
    }
}

/// Decoding of the bytes after the 0F escape; `pos` is the position of the second opcode byte.
pub open spec fn spec_two_byte(code: Seq<u8>, pos: int) -> Result<(usize, Option<RelocHint>), HookError> {
    match byte_at(code, pos) {
        None => Err(HookError::TruncatedInstruction),
        Some(op2) => if op2 == 0x38u8 {
            // 0F 38 xx /r: skip the third opcode byte, then ModRM and its operand bytes
            match scan_modrm(code, pos + 2) {
                Err(e) => Err(e),
                Ok((end, _)) => Ok((end as usize, None)),
            }
        } else if op2 == 0x3Au8 {
            // 0F 3A xx /r ib
            match scan_modrm(code, pos + 2) {
                Err(e) => Err(e),
                Ok((end, _)) => Ok(((end + 1) as usize, None)),
            }
        } else {
            match first_code(TWO_BYTE_CODES@, op2, 0) {
                None => Err(HookError::UnknownInstruction(op2)),
                Some(i) => {
                    let f = TWO_BYTE_FLAGS@[i];
                    let operands: Result<(int, Option<RelocHint>), HookError> = if f & FLAG_MODRM
                        != 0 {
                        match scan_modrm(code, pos + 1) {
                            Err(e) => Err(e),
                            Ok((end, rip)) => Ok((end, rip_hint(rip, None))),
                        }
                    } else {
                        Ok((pos + 1, None))
                    };
                    match operands {
                        Err(e) => Err(e),
                        Ok((p, hint)) => {
                            let hint2 = if f & FLAG_RELOCATION != 0 {
                                Some(RelocHint::I32(p as usize))
                            } else {
                                hint
                            };
                            let end = p + (if f & FLAG_IMMEDIATE_8BIT != 0 {
                                1int
                            } else {
                                0int
                            }) + (if f & FLAG_IMMEDIATE_32BIT != 0 {
                                4int
                            } else {
                                0int
                            });
                            Ok((end as usize, hint2))
                        },
                    }
                },
            }
        },
    }
}

/// Short jumps are expanded when relocated; every other instruction keeps `hint`.
pub open spec fn short_jump_hint(op: u8, hint: Option<RelocHint>) -> Option<RelocHint> {
    if 0x70u8 <= op <= 0x7Fu8 {
        Some(RelocHint::ShortJcc(op))
    } else if op == 0xEBu8 {
        Some(RelocHint::ShortJmp)
    } else {
        hint
    }
}

/// Number of immediate bytes that an entry with flags `f` carries, with operand size `size`.
pub open spec fn immediate_len(f: u8, size: int) -> int {
    (if f & FLAG_IMMEDIATE_8BIT != 0 {
        1int
    } else {
        0int
    }) + (if f & FLAG_IMMEDIATE_16BIT != 0 {
        2int
    } else {
        0int
    }) + (if f & FLAG_IMMEDIATE_32BIT != 0 {
        size
    } else {
        0int
    })
}

/// Decoding of the operands of a one-byte opcode `op` at `pos` whose table entry has flags `f`,
/// with operand size `size`.
pub open spec fn spec_one_byte_operands(code: Seq<u8>, pos: int, op: u8, size: int, f: u8) -> Result<(usize, Option<RelocHint>), HookError> {
    let imm_hint = if f & FLAG_RELOCATION != 0 {
        Some(RelocHint::I32((pos + 1) as usize))
    } else {
        None
    };
    if f & FLAG_MODRM != 0 {
        match scan_modrm(code, pos + 1) {
            Err(e) => Err(e),
            Ok((end, rip)) => Ok(
                (
                    (end + immediate_len(f, size)) as usize,
                    short_jump_hint(op, rip_hint(rip, imm_hint)),
                ),
            ),
        }
    } else {
        Ok(((pos + 1 + immediate_len(f, size)) as usize, short_jump_hint(op, imm_hint)))
    }
}

/// Decoding of a one-byte opcode `op` at `pos`, with operand size `size`.
pub open spec fn spec_one_byte(code: Seq<u8>, pos: int, op: u8, size: int) -> Result<(usize, Option<RelocHint>), HookError> {
    match first_match(
        ONE_BYTE_CODES@,
        ONE_BYTE_REGS@,
        ONE_BYTE_FLAGS@,
        op,
        byte_at(code, pos + 1),
        0,
    ) {
        None => Err(HookError::UnknownInstruction(op)),
        Some(i) => spec_one_byte_operands(code, pos, op, size, ONE_BYTE_FLAGS@[i]),
    }
}

/// What `disasm` returns for `code`: the length of the first instruction and the relocation
/// it needs when copied elsewhere.
#[verifier::opaque]
pub open spec fn spec_disasm(code: Seq<u8>) -> Result<(usize, Option<RelocHint>), HookError> {
    if is_endbr(code) {
        Ok((4, None))
    } else {
        let (pos, size) = scan_all_prefixes(code);
        match byte_at(code, pos) {
            None => Err(HookError::TruncatedInstruction),
            Some(op) => if op == 0x0Fu8 {
                spec_two_byte(code, pos + 1)
            } else {
                spec_one_byte(code, pos, op, size)
            },
        }
    }
}

/// Whether `op` is the opcode of a short jump: `Jcc rel8` (0x70-0x7F) or `JMP rel8` (0xEB).
pub open spec fn is_short_jump_op(op: u8) -> bool {
    (0x70u8 <= op && op <= 0x7Fu8) || op == 0xEBu8
}

/// From entry `i` on, every short-jump entry carries an 8-bit displacement and nothing else,
/// and the only entry with opcode 0xE8 (CALL rel32) is entry 18.
spec fn one_byte_entries_ok(codes: Seq<u8>, flags: Seq<u8>, i: nat) -> bool
    decreases codes.len() - i,
{
    if i >= codes.len() {
        true
    } else {
        &&& (is_short_jump_op(codes[i as int]) ==> flags[i as int] == FLAG_IMMEDIATE_8BIT)
        &&& (codes[i as int] == 0xE8u8 ==> i == 18)
        &&& one_byte_entries_ok(codes, flags, i + 1)
    }
}

proof fn lemma_entries_ok_at(codes: Seq<u8>, flags: Seq<u8>, i: nat, j: int)
    requires
        one_byte_entries_ok(codes, flags, i),
        i <= j < codes.len(),
    ensures
        is_short_jump_op(codes[j]) ==> flags[j] == FLAG_IMMEDIATE_8BIT,
        codes[j] == 0xE8u8 ==> j == 18,
    decreases j - i,
{
    if i < j {
        lemma_entries_ok_at(codes, flags, i + 1, j);
    }
}

proof fn lemma_one_byte_entries_ok()
    ensures
        one_byte_entries_ok(ONE_BYTE_CODES@, ONE_BYTE_FLAGS@, 0),
{
    reveal_with_fuel(one_byte_entries_ok, 60);
    assert(one_byte_entries_ok(ONE_BYTE_CODES@, ONE_BYTE_FLAGS@, 110));
    assert(one_byte_entries_ok(ONE_BYTE_CODES@, ONE_BYTE_FLAGS@, 55));
}

/// A one-byte table entry that matches a short jump's opcode is a short-jump entry, which
/// carries an 8-bit displacement and nothing else.
proof fn lemma_short_jump_match(op: u8, next: Option<u8>, i: int)
    requires
        is_short_jump_op(op),
        0 <= i < ONE_BYTE_CODES@.len(),
        entry_matches(ONE_BYTE_CODES@, ONE_BYTE_REGS@, ONE_BYTE_FLAGS@, i, op, next),
    ensures
        is_short_jump_op(ONE_BYTE_CODES@[i]),
        ONE_BYTE_FLAGS@[i] == FLAG_IMMEDIATE_8BIT,
{
    let codes = ONE_BYTE_CODES@;
    let flags = ONE_BYTE_FLAGS@;
    lemma_one_byte_entries_ok();
    lemma_entries_ok_at(codes, flags, 0, i);
    assert(op & 0xF8u8 == 0x70u8 || op & 0xF8u8 == 0x78u8 || op & 0xF8u8 == 0xE8u8)
        by (bit_vector)
        requires
            (0x70u8 <= op && op <= 0x7Fu8) || op == 0xEBu8,
    ;
    assert(is_short_jump_op(0x70u8) && is_short_jump_op(0x78u8));
    if codes[i] == 0xE8u8 {
        // CALL rel32 has no register in its opcode, so it cannot match a short jump
        assert(flags[18] == FLAG_IMMEDIATE_32BIT | FLAG_RELOCATION);
        assert((0x20u8 | 0x40u8) & 0x02u8 == 0u8) by (bit_vector);
    }
}

/// The one-byte table entry that a short jump's opcode selects carries an 8-bit displacement
/// and nothing else.
proof fn lemma_short_jump_entry(op: u8, next: Option<u8>)
    requires
        is_short_jump_op(op),
    ensures
        first_match(ONE_BYTE_CODES@, ONE_BYTE_REGS@, ONE_BYTE_FLAGS@, op, next, 0) matches Some(i)
            ==> ONE_BYTE_FLAGS@[i] == FLAG_IMMEDIATE_8BIT,
{
    lemma_first_match_bounds(ONE_BYTE_CODES@, ONE_BYTE_REGS@, ONE_BYTE_FLAGS@, op, next, 0);
    if let Some(i) = first_match(ONE_BYTE_CODES@, ONE_BYTE_REGS@, ONE_BYTE_FLAGS@, op, next, 0) {
        lemma_short_jump_match(op, next, i);
    }
}

/// Every instruction that decodes has a length between 1 and `MAX_DECODED_LEN`, a rel32
/// operand to relocate starts inside it, after the first byte, and a short jump is at least
/// two bytes long (its opcode and its displacement).
pub proof fn lemma_disasm_len(code: Seq<u8>)
    ensures
        spec_disasm(code) matches Ok((n, h)) ==> {
            &&& 1 <= n <= MAX_DECODED_LEN
            &&& (h matches Some(RelocHint::I32(k)) ==> 1 <= k <= n)
            &&& (h matches Some(RelocHint::ShortJcc(_)) ==> 2 <= n)
            &&& (h matches Some(RelocHint::ShortJmp) ==> 2 <= n)
        },
{
    reveal(spec_disasm);
    lemma_scan_all_prefixes(code);
    let (pos, size) = scan_all_prefixes(code);
    if !is_endbr(code) {
        if let Some(op) = byte_at(code, pos) {
            if op == 0x0Fu8 {
                let p = pos + 1;
                lemma_scan_modrm(code, p + 2);
                lemma_scan_modrm(code, p + 1);
                if let Some(op2) = byte_at(code, p) {
                    lemma_first_code_bounds(TWO_BYTE_CODES@, op2, 0);
                }
            } else {
                let next = byte_at(code, pos + 1);
                lemma_scan_modrm(code, pos + 1);
                lemma_first_match_bounds(
                    ONE_BYTE_CODES@,
                    ONE_BYTE_REGS@,
                    ONE_BYTE_FLAGS@,
                    op,
                    next,
                    0,
                );
                if is_short_jump_op(op) {
                    lemma_short_jump_entry(op, next);
                    let f = FLAG_IMMEDIATE_8BIT;
                    assert(f & FLAG_MODRM == 0 && f & FLAG_IMMEDIATE_8BIT != 0 && f
                        & FLAG_IMMEDIATE_16BIT == 0 && f & FLAG_IMMEDIATE_32BIT == 0)
                        by (bit_vector)
                        requires
                            f == 0x08u8,
                    ;
                }
            }
        }
    }
}

/// From index `i` on, every entry of `a` is also in `b`, at the same index.
spec fn agrees_from(a: Seq<u8>, b: Seq<u8>, i: nat) -> bool
    decreases a.len() - i,
{
    if i >= a.len() {
        true
    } else {
        &&& i < b.len()
        &&& a[i as int] == b[i as int]
        &&& agrees_from(a, b, i + 1)
    }
}

proof fn lemma_agrees_at(a: Seq<u8>, b: Seq<u8>, i: nat, j: int)
    requires
        agrees_from(a, b, i),
        i <= j < a.len(),
    ensures
        j < b.len(),
        a[j] == b[j],
    decreases j - i,
{
    if i < j {
        lemma_agrees_at(a, b, i + 1, j);
    }
}

/// From index `i` on, no entry of a one-byte table is a short jump.
spec fn no_short_jumps(codes: Seq<u8>, i: nat) -> bool
    decreases codes.len() - i,
{
    if i >= codes.len() {
        true
    } else {
        !is_short_jump_op(codes[i as int]) && no_short_jumps(codes, i + 1)
    }
}

proof fn lemma_no_short_jump_at(codes: Seq<u8>, i: nat, j: int)
    requires
        no_short_jumps(codes, i),
        i <= j < codes.len(),
    ensures
        !is_short_jump_op(codes[j]),
    decreases j - i,
{
    if i < j {
        lemma_no_short_jump_at(codes, i + 1, j);
    }
}

/// From index `i` on, no entry of a two-byte table is 0F 38 or 0F 3A, and every entry has a
/// ModRM byte and no immediate or relocation.
spec fn plain_two_byte_entries(codes: Seq<u8>, flags: Seq<u8>, i: nat) -> bool
    decreases codes.len() - i,
{
    if i >= codes.len() {
        true
    } else {
        &&& codes[i as int] != 0x38u8
        &&& codes[i as int] != 0x3Au8
        &&& (flags[i as int] == FLAG_MODRM || flags[i as int] == FLAG_MODRM | FLAG_REGISTER_OPCODE)
        &&& plain_two_byte_entries(codes, flags, i + 1)
    }
}

proof fn lemma_plain_two_byte_at(codes: Seq<u8>, flags: Seq<u8>, i: nat, j: int)
    requires
        plain_two_byte_entries(codes, flags, i),
        i <= j < codes.len(),
    ensures
        codes[j] != 0x38u8,
        codes[j] != 0x3Au8,
        flags[j] == FLAG_MODRM || flags[j] == FLAG_MODRM | FLAG_REGISTER_OPCODE,
    decreases j - i,
{
    if i < j {
        lemma_plain_two_byte_at(codes, flags, i + 1, j);
    }
}

/// Looking up a table and a longer one that starts with it finds the same entry, when the
/// shorter one has a match.
proof fn lemma_first_match_prefix(
    ac: Seq<u8>,
    ar: Seq<u8>,
    af: Seq<u8>,
    bc: Seq<u8>,
    br: Seq<u8>,
    bf: Seq<u8>,
    op: u8,
    next: Option<u8>,
    i: int,
)
    requires
        0 <= i,
        ar.len() == ac.len(),
        af.len() == ac.len(),
        agrees_from(ac, bc, 0),
        agrees_from(ar, br, 0),
        agrees_from(af, bf, 0),
        first_match(ac, ar, af, op, next, i) is Some,
    ensures
        first_match(bc, br, bf, op, next, i) == first_match(ac, ar, af, op, next, i),
    decreases ac.len() - i,
{
    if i < ac.len() {
        lemma_agrees_at(ac, bc, 0, i);
        lemma_agrees_at(ar, br, 0, i);
        lemma_agrees_at(af, bf, 0, i);
        if !entry_matches(ac, ar, af, i, op, next) {
            lemma_first_match_prefix(ac, ar, af, bc, br, bf, op, next, i + 1);
        }
    }
}

proof fn lemma_first_code_prefix(a: Seq<u8>, b: Seq<u8>, op: u8, i: int)
    requires
        0 <= i,
        agrees_from(a, b, 0),
        first_code(a, op, i) is Some,
    ensures
        first_code(b, op, i) == first_code(a, op, i),
    decreases a.len() - i,
{
    if i < a.len() {
        lemma_agrees_at(a, b, 0, i);
        if a[i] != op {
            lemma_first_code_prefix(a, b, op, i + 1);
        }
    }
}

/// The Zeex tables are the first entries of these tables.
proof fn lemma_zeex_tables()
    ensures
        agrees_from(zeex::ONE_BYTE_CODES@, ONE_BYTE_CODES@, 0),
        agrees_from(zeex::ONE_BYTE_REGS@, ONE_BYTE_REGS@, 0),
        agrees_from(zeex::ONE_BYTE_FLAGS@, ONE_BYTE_FLAGS@, 0),
        agrees_from(zeex::TWO_BYTE_CODES@, TWO_BYTE_CODES@, 0),
        agrees_from(zeex::TWO_BYTE_FLAGS@, TWO_BYTE_FLAGS@, 0),
        no_short_jumps(zeex::ONE_BYTE_CODES@, 0),
        plain_two_byte_entries(zeex::TWO_BYTE_CODES@, zeex::TWO_BYTE_FLAGS@, 0),
{
    reveal_with_fuel(agrees_from, 50);
    reveal_with_fuel(no_short_jumps, 50);
    reveal_with_fuel(plain_two_byte_entries, 30);
    assert(agrees_from(zeex::ONE_BYTE_CODES@, ONE_BYTE_CODES@, 45));
    assert(agrees_from(zeex::ONE_BYTE_REGS@, ONE_BYTE_REGS@, 45));
    assert(agrees_from(zeex::ONE_BYTE_FLAGS@, ONE_BYTE_FLAGS@, 45));
    assert(no_short_jumps(zeex::ONE_BYTE_CODES@, 45));
}

/// The extended decoder agrees with the Zeex one: on every input that the Zeex decoder
/// decodes, it gives the same length and the same rel32 operand offset.
pub proof fn lemma_extends_zeex(code: Seq<u8>)
    ensures
        zeex::spec_disasm(code) matches Ok((n, r)) ==> spec_disasm(code) == Ok::<
            (usize, Option<RelocHint>),
            HookError,
        >(
            (
                n,
                match r {
                    Some(k) => Some(RelocHint::I32(k)),
                    None => None,
                },
            ),
        ),
{
    reveal(spec_disasm);
    if zeex::spec_disasm(code) is Ok && !is_endbr(code) {
        lemma_zeex_tables();
        let (pos, size) = scan_all_prefixes(code);
        let op = byte_at(code, pos)->0;
        if op == 0x0Fu8 {
            let op2 = byte_at(code, pos + 1)->0;
            lemma_first_code_prefix(zeex::TWO_BYTE_CODES@, TWO_BYTE_CODES@, op2, 0);
            lemma_first_code_bounds(zeex::TWO_BYTE_CODES@, op2, 0);
            let i = first_code(zeex::TWO_BYTE_CODES@, op2, 0)->0;
            lemma_plain_two_byte_at(zeex::TWO_BYTE_CODES@, zeex::TWO_BYTE_FLAGS@, 0, i);
            lemma_agrees_at(zeex::TWO_BYTE_FLAGS@, TWO_BYTE_FLAGS@, 0, i);
            let f = TWO_BYTE_FLAGS@[i];
            assert(f & FLAG_MODRM != 0 && f & FLAG_RELOCATION == 0 && f & FLAG_IMMEDIATE_8BIT == 0
                && f & FLAG_IMMEDIATE_32BIT == 0) by (bit_vector)
                requires
                    f == 0x01u8 || f == 0x01u8 | 0x04u8,
            ;
        } else {
            let next = byte_at(code, pos + 1);
            lemma_first_match_prefix(
                zeex::ONE_BYTE_CODES@,
                zeex::ONE_BYTE_REGS@,
                zeex::ONE_BYTE_FLAGS@,
                ONE_BYTE_CODES@,
                ONE_BYTE_REGS@,
                ONE_BYTE_FLAGS@,
                op,
                next,
                0,
            );
            lemma_first_match_bounds(
                zeex::ONE_BYTE_CODES@,
                zeex::ONE_BYTE_REGS@,
                zeex::ONE_BYTE_FLAGS@,
                op,
                next,
                0,
            );
            let i = first_match(
                zeex::ONE_BYTE_CODES@,
                zeex::ONE_BYTE_REGS@,
                zeex::ONE_BYTE_FLAGS@,
                op,
                next,
                0,
            )->0;
            lemma_agrees_at(zeex::ONE_BYTE_FLAGS@, ONE_BYTE_FLAGS@, 0, i);
            if is_short_jump_op(op) {
                // a short jump matches no Zeex entry
                lemma_agrees_at(zeex::ONE_BYTE_CODES@, ONE_BYTE_CODES@, 0, i);
                lemma_agrees_at(zeex::ONE_BYTE_REGS@, ONE_BYTE_REGS@, 0, i);
                lemma_no_short_jump_at(zeex::ONE_BYTE_CODES@, 0, i);
                lemma_short_jump_match(op, next, i);
                assert(false);
            }
        }
    }
}

/// Decode one instruction from `code`.
///
/// Returns `(len, reloc)` where `reloc` describes any necessary relocation.
pub fn disasm(code: &[u8]) -> (r: Result<(usize, Option<RelocHint>), HookError>)
    ensures
        r == spec_disasm(code@),
        r matches Ok((len, _)) ==> 1 <= len <= MAX_DECODED_LEN,
{
    reveal(spec_disasm);
    if starts_with_endbr(code) {
        return Ok((4, None));
    }
    let (pos, size) = skip_prefixes(code);
    let raw_opcode = match get_byte(code, pos) {
        Some(b) => b,
        None => return Err(HookError::TruncatedInstruction),
    };
    if raw_opcode == 0x0F {
        decode_two_byte(code, pos + 1)
    } else {
        decode_one_byte(code, pos, raw_opcode, size)
    }
}

fn decode_two_byte(code: &[u8], pos: usize) -> (r: Result<(usize, Option<RelocHint>), HookError>)
    requires
        pos <= 13,
    ensures
        r == spec_two_byte(code@, pos as int),
        r matches Ok((len, _)) ==> 1 <= len <= MAX_DECODED_LEN,
{
    let opcode2 = match get_byte(code, pos) {
        Some(b) => b,
        None => return Err(HookError::TruncatedInstruction),
    };
    if opcode2 == 0x38 {
        // skip 0x38 and the third opcode byte
        let (end, _) = skip_modrm(code, pos + 2)?;
        return Ok((end, None));
    }
    if opcode2 == 0x3A {
        let (end, _) = skip_modrm(code, pos + 2)?;
        // imm8
        return Ok((end + 1, None));
    }
    let i = match find_code(TWO_BYTE_CODES.as_slice(), opcode2) {
        Some(i) => i,
        None => return Err(HookError::UnknownInstruction(opcode2)),
    };
    let f = TWO_BYTE_FLAGS[i];
    let mut p = pos + 1;
    let mut hint: Option<RelocHint> = None;
    if f & FLAG_MODRM != 0 {
        let (end, rip) = skip_modrm(code, p)?;
        if let Some(q) = rip {
            hint = Some(RelocHint::I32(q));
        }
        p = end;
    }
    // Relocation and immediates of two-byte instructions (Jcc near, CMPPS, ...)
    if f & FLAG_RELOCATION != 0 {
        hint = Some(RelocHint::I32(p));
    }
    if f & FLAG_IMMEDIATE_8BIT != 0 {
        p = p + 1;
    }
    if f & FLAG_IMMEDIATE_32BIT != 0 {
        p = p + 4;
    }
    Ok((p, hint))
}

fn decode_one_byte(code: &[u8], pos: usize, op: u8, size: usize) -> (r: Result<
    (usize, Option<RelocHint>),
    HookError,
>)
    requires
        pos <= 12,
        size == 2 || size == 4 || size == 8,
    ensures
        r == spec_one_byte(code@, pos as int, op, size as int),
        r matches Ok((len, _)) ==> 1 <= len <= MAX_DECODED_LEN,
{
    let next = get_byte(code, pos + 1);
    let i = match find_entry(
        ONE_BYTE_CODES.as_slice(),
        ONE_BYTE_REGS.as_slice(),
        ONE_BYTE_FLAGS.as_slice(),
        op,
        next,
    ) {
        Some(i) => i,
        None => return Err(HookError::UnknownInstruction(op)),
    };
    decode_one_byte_operands(code, pos, op, size, ONE_BYTE_FLAGS[i])
}

fn short_hint(op: u8, hint: Option<RelocHint>) -> (r: Option<RelocHint>)
    ensures
        r == short_jump_hint(op, hint),
{
    if 0x70 <= op && op <= 0x7F {
        Some(RelocHint::ShortJcc(op))
    } else if op == 0xEB {
        Some(RelocHint::ShortJmp)
    } else {
        hint
    }
}

fn decode_one_byte_operands(code: &[u8], pos: usize, op: u8, size: usize, f: u8) -> (r: Result<
    (usize, Option<RelocHint>),
    HookError,
>)
    requires
        pos <= 12,
        size == 2 || size == 4 || size == 8,
    ensures
        r == spec_one_byte_operands(code@, pos as int, op, size as int, f),
        r matches Ok((len, _)) ==> 1 <= len <= MAX_DECODED_LEN,
{
    let imm_hint = if f & FLAG_RELOCATION != 0 {
        Some(RelocHint::I32(pos + 1))
    } else {
        None
    };
    let imm = immediates(f, size);
    if f & FLAG_MODRM != 0 {
        let (end, rip) = skip_modrm(code, pos + 1)?;
        let hint = match rip {
            Some(q) => Some(RelocHint::I32(q)),
            None => imm_hint,
        };
        Ok((end + imm, short_hint(op, hint)))
    } else {
        Ok((pos + 1 + imm, short_hint(op, imm_hint)))
    }
}

fn immediates(f: u8, size: usize) -> (r: usize)
    requires
        size <= 8,
    ensures
        r == immediate_len(f, size as int),
        r <= 11,
{
    let mut n: usize = 0;
    if f & FLAG_IMMEDIATE_8BIT != 0 {
        n = n + 1;
    }
    if f & FLAG_IMMEDIATE_16BIT != 0 {
        n = n + 2;
    }
    if f & FLAG_IMMEDIATE_32BIT != 0 {
        n = n + size;
    }
    n
}

/// Whether `op` follows the 0F escape in an instruction with a ModRM operand and an 8-bit
/// immediate: BT/BTS/BTR/BTC r/m, imm8 (0F BA), CMPPS (0F C2), PSHUFD (0F 70), SHLD and SHRD
/// with an immediate count (0F A4, 0F AC).
pub open spec fn is_two_byte_imm8_op(op: u8) -> bool {
    op == 0xBAu8 || op == 0xC2u8 || op == 0x70u8 || op == 0xA4u8 || op == 0xACu8
}

/// From entry `i` on, every two-byte entry of such an opcode has a ModRM byte and an 8-bit
/// immediate and no other immediate or relocation, and the entry of IMUL r, r/m (0F AF) has a
/// ModRM byte and nothing else.
spec fn imm8_two_byte_entries(codes: Seq<u8>, flags: Seq<u8>, i: nat) -> bool
    decreases codes.len() - i,
{
    if i >= codes.len() {
        true
    } else {
        &&& (is_two_byte_imm8_op(codes[i as int]) ==> flags[i as int] == FLAG_MODRM | FLAG_IMMEDIATE_8BIT
            || flags[i as int] == FLAG_MODRM | FLAG_REGISTER_OPCODE | FLAG_IMMEDIATE_8BIT)
        &&& (codes[i as int] == 0xAFu8 ==> flags[i as int] == FLAG_MODRM)
        &&& imm8_two_byte_entries(codes, flags, i + 1)
    }
}

proof fn lemma_imm8_two_byte_at(codes: Seq<u8>, flags: Seq<u8>, i: nat, j: int)
    requires
        imm8_two_byte_entries(codes, flags, i),
        i <= j < codes.len(),
    ensures
        is_two_byte_imm8_op(codes[j]) ==> flags[j] == FLAG_MODRM | FLAG_IMMEDIATE_8BIT || flags[j]
            == FLAG_MODRM | FLAG_REGISTER_OPCODE | FLAG_IMMEDIATE_8BIT,
        codes[j] == 0xAFu8 ==> flags[j] == FLAG_MODRM,
    decreases j - i,
{
    if i < j {
        lemma_imm8_two_byte_at(codes, flags, i + 1, j);
    }
}

proof fn lemma_imm8_two_byte_entries()
    ensures
        imm8_two_byte_entries(TWO_BYTE_CODES@, TWO_BYTE_FLAGS@, 0),
{
    reveal_with_fuel(imm8_two_byte_entries, 45);
    assert(imm8_two_byte_entries(TWO_BYTE_CODES@, TWO_BYTE_FLAGS@, 82));
    assert(imm8_two_byte_entries(TWO_BYTE_CODES@, TWO_BYTE_FLAGS@, 41));
}

/// The table lookup finds an entry for an opcode that occurs in the table from `i` on.
proof fn lemma_first_code_found(codes: Seq<u8>, op: u8, i: int, k: int)
    requires
        0 <= i <= k < codes.len(),
        codes[k] == op,
    ensures
        first_code(codes, op, i) is Some,
    decreases k - i,
{
    if codes[i] != op {
        lemma_first_code_found(codes, op, i + 1, k);
    }
}

/// An instruction with a 0F-escaped opcode that takes a ModRM operand and an 8-bit immediate
/// (0F BA /4-/7, 0F C2, 0F 70, 0F A4, 0F AC) is as long as the escape, the opcode, the ModRM
/// byte with its SIB and displacement bytes, and one immediate byte; with a register operand
/// (mod 3) that is 4 bytes, one more than IMUL r, r/m (0F AF), which has no immediate.
pub proof fn lemma_two_byte_immediate_len(code: Seq<u8>)
    requires
        code.len() >= 3,
        code[0] == 0x0Fu8,
    ensures
        is_two_byte_imm8_op(code[1]) ==> (scan_modrm(code, 2) matches Ok((end, rip))
            ==> spec_disasm(code) == Ok::<(usize, Option<RelocHint>), HookError>(
            ((end + 1) as usize, rip_hint(rip, None)),
        )),
        is_two_byte_imm8_op(code[1]) && code[2] >= 0xC0u8 ==> spec_disasm(code) == Ok::<
            (usize, Option<RelocHint>),
            HookError,
        >((4, None)),
        code[1] == 0xAFu8 && code[2] >= 0xC0u8 ==> spec_disasm(code) == Ok::<
            (usize, Option<RelocHint>),
            HookError,
        >((3, None)),
{
    reveal(spec_disasm);
    reveal(scan_modrm);
    reveal_with_fuel(crate::x86::decode::scan_prefixes, 12);
    assert(!is_endbr(code));
    assert(0x0Fu8 & 0xF0u8 == 0u8) by (bit_vector);
    assert(scan_all_prefixes(code) == (0int, 4int));
    let op2 = code[1];
    let codes = TWO_BYTE_CODES@;
    let flags = TWO_BYTE_FLAGS@;
    lemma_imm8_two_byte_entries();
    lemma_first_code_bounds(codes, op2, 0);
    if is_two_byte_imm8_op(op2) || op2 == 0xAFu8 {
        let k: int = if op2 == 0xBAu8 {
            61
        } else if op2 == 0xC2u8 {
            71
        } else if op2 == 0x70u8 {
            102
        } else if op2 == 0xA4u8 {
            114
        } else if op2 == 0xACu8 {
            116
        } else {
            65
        };
        assert(codes[k] == op2);
        lemma_first_code_found(codes, op2, 0, k);
        let j = first_code(codes, op2, 0)->0;
        lemma_imm8_two_byte_at(codes, flags, 0, j);
        let f = flags[j];
        assert(0x01u8 | 0x08u8 == 0x09u8 && 0x01u8 | 0x04u8 | 0x08u8 == 0x0Du8) by (bit_vector);
        assert((f == 0x09u8 || f == 0x0Du8) ==> (f & FLAG_MODRM != 0 && f & FLAG_IMMEDIATE_8BIT != 0 && f
            & FLAG_IMMEDIATE_32BIT == 0 && f & FLAG_RELOCATION == 0)) by (bit_vector);
        assert(f == FLAG_MODRM ==> (f & FLAG_MODRM != 0 && f & FLAG_IMMEDIATE_8BIT == 0 && f
            & FLAG_IMMEDIATE_32BIT == 0 && f & FLAG_RELOCATION == 0)) by (bit_vector);
        let m = code[2];
        assert(m >= 0xC0u8 ==> m >> 6u8 == 3u8) by (bit_vector);
    }
}

/// The decoding of an instruction after one more byte was put in front of it: one byte longer,
/// a rel32 operand one byte further on, any other hint and any error unchanged.
pub open spec fn one_byte_later(r: Result<(usize, Option<RelocHint>), HookError>) -> Result<(usize, Option<RelocHint>), HookError> {
    match r {
        Ok((n, h)) => Ok((
            (n + 1) as usize,
            match h {
                Some(RelocHint::I32(k)) => Some(RelocHint::I32((k + 1) as usize)),
                other => other,
            },
        )),
        Err(e) => Err(e),
    }
}

/// In 64-bit mode a REX prefix without the W bit (0x40-0x47) in front of an instruction that has
/// no prefix of its own is skipped: the instruction decodes as without it, one byte longer,
/// with any rel32 operand one byte further on. `push r12` (41 54) decodes as `push rsp` (54),
/// two bytes long.
pub proof fn lemma_rex_prefix_skipped(rex: u8, c: Seq<u8>)
    requires
        long_mode(),
        0x40u8 <= rex <= 0x47u8,
        c.len() >= 1,
        !is_legacy_prefix(c[0]),
        !(0x40u8 <= c[0] <= 0x4Fu8),
    ensures
        spec_disasm(seq![rex] + c) == one_byte_later(spec_disasm(c)),
{
    reveal(spec_disasm);
    let code = seq![rex] + c;
    let b = c[0];
    assert(code[0] == rex);
    lemma_byte_at_after(rex, c, 0);
    lemma_byte_at_after(rex, c, 1);
    lemma_byte_at_after(rex, c, 2);
    lemma_no_legacy_prefix(code, 0, 4);
    lemma_no_legacy_prefix(c, 0, 4);
    assert((rex & 0xF0u8) == 0x40u8 && rex & 0x08u8 == 0u8) by (bit_vector)
        requires
            0x40u8 <= rex <= 0x47u8,
    ;
    assert((b & 0xF0u8) != 0x40u8) by (bit_vector)
        requires
            !(0x40u8 <= b <= 0x4Fu8),
    ;
    assert(scan_all_prefixes(code) == (1int, 4int));
    assert(scan_all_prefixes(c) == (0int, 4int));
    assert(!is_endbr(code));
    assert(!is_endbr(c));
    lemma_scan_modrm_after(rex, c, 1);
    lemma_scan_modrm_after(rex, c, 2);
    lemma_scan_modrm(c, 1);
    lemma_scan_modrm(c, 2);
    assert(byte_at(code, 1) == Some(b));
    if b == 0x0Fu8 {
        assert(spec_disasm(code) == spec_two_byte(code, 2));
        assert(spec_disasm(c) == spec_two_byte(c, 1));
        if let Some(op2) = byte_at(c, 1) {
            lemma_first_code_bounds(TWO_BYTE_CODES@, op2, 0);
            lemma_scan_modrm_after(rex, c, 3);
            lemma_scan_modrm(c, 3);
        }
        assert(spec_two_byte(code, 2) == one_byte_later(spec_two_byte(c, 1)));
    } else {
        assert(spec_disasm(code) == spec_one_byte(code, 1, b, 4));
        assert(spec_disasm(c) == spec_one_byte(c, 0, b, 4));
        let m = first_match(ONE_BYTE_CODES@, ONE_BYTE_REGS@, ONE_BYTE_FLAGS@, b, byte_at(c, 1), 0);
        lemma_first_match_bounds(ONE_BYTE_CODES@, ONE_BYTE_REGS@, ONE_BYTE_FLAGS@, b, byte_at(c, 1), 0);
        if let Some(i) = m {
            let f = ONE_BYTE_FLAGS@[i];
            assert(spec_one_byte_operands(code, 1, b, 4, f) == one_byte_later(
                spec_one_byte_operands(c, 0, b, 4, f),
            ));
        }
        assert(spec_one_byte(code, 1, b, 4) == one_byte_later(spec_one_byte(c, 0, b, 4)));
    }
}

} // verus!
