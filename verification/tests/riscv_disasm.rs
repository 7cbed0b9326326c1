use subhook_rs::error::HookError;
use subhook_rs::riscv::disasm::disasm;

#[test]
fn decode_compressed_nop() {
    let (len, reloc) = disasm(&[0x01, 0x00]).unwrap();
    assert_eq!(len, 2);
    assert_eq!(reloc, None);
}

#[test]
fn decode_compressed_jump() {
    let insn: u16 = 0b101_00000000000_01;
    let bytes = insn.to_le_bytes();
    let (len, reloc) = disasm(&bytes).unwrap();
    assert_eq!(len, 2);
    assert_eq!(reloc, Some(0));
}

#[test]
fn decode_compressed_beqz() {
    let insn: u16 = 0b110_000_000_00000_01;
    let bytes = insn.to_le_bytes();
    let (len, reloc) = disasm(&bytes).unwrap();
    assert_eq!(len, 2);
    assert_eq!(reloc, Some(0));
}

#[test]
fn decode_addi() {
    let (len, reloc) = disasm(&[0x93, 0x00, 0x10, 0x00]).unwrap();
    assert_eq!(len, 4);
    assert_eq!(reloc, None);
}

#[test]
fn decode_auipc() {
    let (len, reloc) = disasm(&[0x97, 0x50, 0x34, 0x12]).unwrap();
    assert_eq!(len, 4);
    assert_eq!(reloc, Some(0));
}

#[test]
fn decode_jal() {
    let insn: u32 = 0b0_0000000000_0_00000000_00001_1101111;
    let bytes = insn.to_le_bytes();
    let (len, reloc) = disasm(&bytes).unwrap();
    assert_eq!(len, 4);
    assert_eq!(reloc, Some(0));
}

#[test]
fn decode_beq() {
    let insn: u32 = 0b0000000_00010_00001_000_00000_1100011;
    let bytes = insn.to_le_bytes();
    let (len, reloc) = disasm(&bytes).unwrap();
    assert_eq!(len, 4);
    assert_eq!(reloc, Some(0));
}

#[test]
fn decode_load() {
    let insn: u32 = 0b000000000000_00010_010_00001_0000011;
    let bytes = insn.to_le_bytes();
    let (len, reloc) = disasm(&bytes).unwrap();
    assert_eq!(len, 4);
    assert_eq!(reloc, None);
}

#[test]
fn truncated_instruction() {
    assert!(disasm(&[0x93]).is_err());
}

#[test]
fn truncated_standard_instruction() {
    assert!(disasm(&[0x93, 0x00, 0x10]).is_err());
}

#[test]
fn riscv_truncated_is_the_error() {
    assert_eq!(disasm(&[]), Err(HookError::TruncatedInstruction));
    assert_eq!(disasm(&[0x93]), Err(HookError::TruncatedInstruction));
    assert_eq!(disasm(&[0x93, 0x00, 0x10]), Err(HookError::TruncatedInstruction));
}

#[test]
fn riscv_compressed_quadrant_two_is_not_relocated() {
    // C.JR ra (quadrant 2)
    let insn: u16 = 0x8082;
    assert_eq!(disasm(&insn.to_le_bytes()), Ok((2, None)));
    // C.ADDI (quadrant 1, funct3 0)
    assert_eq!(disasm(&[0x05, 0x04]), Ok((2, None)));
    // C.BNEZ (quadrant 1, funct3 7)
    let bnez: u16 = 0b111_000_000_00000_01;
    assert_eq!(disasm(&bnez.to_le_bytes()), Ok((2, Some(0))));
}

#[test]
fn riscv_compressed_ignores_following_bytes() {
    assert_eq!(disasm(&[0x01, 0x00, 0xFF]), Ok((2, None)));
}
