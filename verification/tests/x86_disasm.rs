use subhook_rs::error::HookError;
use subhook_rs::x86::disasm::{disasm, RelocHint};

#[test]
fn x86_decodes_simple_instructions() {
    assert_eq!(disasm(&[0x90]), Ok((1, None)));
    assert_eq!(disasm(&[0x55]), Ok((1, None)));
    assert_eq!(disasm(&[0x48, 0x89, 0xE5]), Ok((3, None)));
    assert_eq!(disasm(&[0x0F, 0xB6, 0xC0]), Ok((3, None)));
    assert_eq!(disasm(&[0x48, 0x0F, 0x45, 0xC8]), Ok((4, None)));
    assert_eq!(disasm(&[0x0F, 0x1F, 0x44, 0x00, 0x00]), Ok((5, None)));
}

#[test]
fn x86_endbr_is_four_bytes() {
    assert_eq!(disasm(&[0xF3, 0x0F, 0x1E, 0xFA]), Ok((4, None)));
    assert_eq!(disasm(&[0xF3, 0x0F, 0x1E, 0xFB, 0x90]), Ok((4, None)));
}

#[test]
fn x86_rel32_call_and_jmp_operands() {
    assert_eq!(disasm(&[0xE8, 0x01, 0x00, 0x00, 0x00]), Ok((5, Some(RelocHint::I32(1)))));
    assert_eq!(disasm(&[0xE9, 0x00, 0x00, 0x00, 0x00]), Ok((5, Some(RelocHint::I32(1)))));
    // 0F 84 rel32  je near
    assert_eq!(disasm(&[0x0F, 0x84, 0, 0, 0, 0]), Ok((6, Some(RelocHint::I32(2)))));
}

#[test]
fn x86_rip_relative_operand() {
    // 48 8B 05 disp32  mov rax, [rip+disp32]
    assert_eq!(disasm(&[0x48, 0x8B, 0x05, 0x10, 0, 0, 0]), Ok((7, Some(RelocHint::I32(3)))));
    // 0F 10 05 disp32  movups xmm0, [rip+disp32]
    assert_eq!(disasm(&[0x0F, 0x10, 0x05, 0, 0, 0, 0]), Ok((7, Some(RelocHint::I32(3)))));
}

#[test]
fn x86_short_jumps() {
    assert_eq!(disasm(&[0x74, 0x05]), Ok((2, Some(RelocHint::ShortJcc(0x74)))));
    assert_eq!(disasm(&[0x7F, 0xFE]), Ok((2, Some(RelocHint::ShortJcc(0x7F)))));
    assert_eq!(disasm(&[0xEB, 0x05]), Ok((2, Some(RelocHint::ShortJmp))));
}

#[test]
fn x86_three_byte_opcodes() {
    // 66 0F 38 00 C1  pshufb xmm0, xmm1
    assert_eq!(disasm(&[0x66, 0x0F, 0x38, 0x00, 0xC1]), Ok((5, None)));
    // 66 0F 3A 0F C1 08  palignr xmm0, xmm1, 8
    assert_eq!(disasm(&[0x66, 0x0F, 0x3A, 0x0F, 0xC1, 0x08]), Ok((6, None)));
}

#[test]
fn x86_errors() {
    assert_eq!(disasm(&[0x0F, 0xFF]), Err(HookError::UnknownInstruction(0xFF)));
    assert_eq!(disasm(&[0xD6]), Err(HookError::UnknownInstruction(0xD6)));
    assert_eq!(disasm(&[]), Err(HookError::TruncatedInstruction));
    assert_eq!(disasm(&[0xF0, 0x66]), Err(HookError::TruncatedInstruction));
    assert_eq!(disasm(&[0x0F]), Err(HookError::TruncatedInstruction));
    assert_eq!(disasm(&[0x8B]), Err(HookError::TruncatedInstruction));
    assert_eq!(disasm(&[0x8B, 0x04]), Err(HookError::TruncatedInstruction));
}

#[test]
fn x86_immediates_follow_operand_size() {
    // B8 imm32  mov eax, imm32
    assert_eq!(disasm(&[0xB8, 1, 2, 3, 4]), Ok((5, None)));
    // 66 B8 imm16
    assert_eq!(disasm(&[0x66, 0xB8, 1, 2]), Ok((4, None)));
    // 48 B8 imm64
    assert_eq!(disasm(&[0x48, 0xB8, 1, 2, 3, 4, 5, 6, 7, 8]), Ok((10, None)));
    // C8 imm16 imm8  enter
    assert_eq!(disasm(&[0xC8, 0x10, 0x00, 0x00]), Ok((4, None)));
}

#[test]
fn x86_reg_field_selects_entry() {
    // 83 EC 10  sub esp, 0x10 (83 /5 ib)
    assert_eq!(disasm(&[0x83, 0xEC, 0x10]), Ok((3, None)));
    // FF 25 disp32  jmp [rip+disp32] (FF /4)
    assert_eq!(disasm(&[0xFF, 0x25, 0, 0, 0, 0]), Ok((6, Some(RelocHint::I32(2)))));
    // FF /7 is not in the table
    assert_eq!(disasm(&[0xFF, 0x38]), Err(HookError::UnknownInstruction(0xFF)));
}

#[test]
fn x86_sib_without_base_counts_one_displacement() {
    // mov eax, [riz + 0x10] with mod 01 and SIB base 5: ModRM, SIB, disp8
    assert_eq!(disasm(&[0x8B, 0x44, 0x25, 0x10, 0x90, 0x90]), Ok((4, None)));
    // mod 00 with SIB base 5: a 32-bit displacement follows the SIB byte
    assert_eq!(disasm(&[0x8B, 0x04, 0x25, 0x10, 0x00, 0x00, 0x00, 0x90]), Ok((7, None)));
}

#[test]
fn x86_decoder_extends_zeex_decoder() {
    let call = [0xE8, 0x10, 0x00, 0x00, 0x00, 0x90];
    assert_eq!(subhook_rs::zeex::disasm::disasm(&call), Ok((5, Some(1))));
    assert_eq!(disasm(&call), Ok((5, Some(RelocHint::I32(1)))));
    let load = [0x48, 0x8B, 0x05, 0x10, 0x00, 0x00, 0x00];
    assert_eq!(subhook_rs::zeex::disasm::disasm(&load), Ok((7, Some(3))));
    assert_eq!(disasm(&load), Ok((7, Some(RelocHint::I32(3)))));
}
