use subhook_rs::error::HookError;
use subhook_rs::x86::trampoline::{build_trampoline, trampoline_size};

fn prologue(head: &[u8]) -> Vec<u8> {
    let mut code = head.to_vec();
    code.resize(head.len() + 64, 0x90);
    code
}

fn jmp64_to(addr: u64) -> Vec<u8> {
    let lo = (addr as u32).to_le_bytes();
    let hi = ((addr >> 32) as u32).to_le_bytes();
    let mut v = vec![0x68];
    v.extend_from_slice(&lo);
    v.extend_from_slice(&[0xC7, 0x44, 0x24, 0x04]);
    v.extend_from_slice(&hi);
    v.push(0xC3);
    v
}

#[test]
fn x86_trampoline_copies_plain_instructions() {
    // push rbp; mov rbp, rsp; sub rsp, 0x10
    let code = prologue(&[0x55, 0x48, 0x89, 0xE5, 0x48, 0x83, 0xEC, 0x10]);
    let t = build_trampoline(&code, 0x1000_0000, 0x2000_0000, 5).unwrap();
    let mut expected = vec![0x55, 0x48, 0x89, 0xE5, 0x48, 0x83, 0xEC, 0x10];
    expected.extend(jmp64_to(0x1000_0008));
    assert_eq!(t, expected);
}

#[test]
fn x86_trampoline_retargets_call() {
    // call +0x10 at 0x1000 targets 0x1015; the copy at 0x3000 must still reach it
    let code = prologue(&[0xE8, 0x10, 0x00, 0x00, 0x00]);
    let t = build_trampoline(&code, 0x1000, 0x3000, 5).unwrap();
    let mut expected = vec![0xE8, 0x10, 0xE0, 0xFF, 0xFF];
    expected.extend(jmp64_to(0x1005));
    assert_eq!(t, expected);
    let rel = i32::from_le_bytes([t[1], t[2], t[3], t[4]]) as i64;
    assert_eq!(0x3000 + 5 + rel, 0x1015);
}

#[test]
fn x86_trampoline_retargets_rip_relative_load() {
    let code = prologue(&[0x48, 0x8B, 0x05, 0x10, 0x00, 0x00, 0x00]);
    let t = build_trampoline(&code, 0x1000, 0x3000, 5).unwrap();
    let mut expected = vec![0x48, 0x8B, 0x05, 0x10, 0xE0, 0xFF, 0xFF];
    expected.extend(jmp64_to(0x1007));
    assert_eq!(t, expected);
}

#[test]
fn x86_trampoline_widens_short_jcc() {
    // je +5 at 0x1000 targets 0x1007
    let code = prologue(&[0x74, 0x05, 0x90, 0x90, 0x90]);
    let t = build_trampoline(&code, 0x1000, 0x3000, 5).unwrap();
    let mut expected = vec![0x0F, 0x84, 0x01, 0xE0, 0xFF, 0xFF, 0x90, 0x90, 0x90];
    expected.extend(jmp64_to(0x1005));
    assert_eq!(t, expected);
    let rel = i32::from_le_bytes([t[2], t[3], t[4], t[5]]) as i64;
    assert_eq!(0x3000 + 6 + rel, 0x1007);
}

#[test]
fn x86_trampoline_widens_short_jmp() {
    // jmp -2 at 0x1000 targets 0x1000
    let code = prologue(&[0xEB, 0xFE, 0x90, 0x90, 0x90]);
    let t = build_trampoline(&code, 0x1000, 0x3000, 5).unwrap();
    assert_eq!(&t[..5], &[0xE9, 0xFB, 0xDF, 0xFF, 0xFF]);
    let rel = i32::from_le_bytes([t[1], t[2], t[3], t[4]]) as i64;
    assert_eq!(0x3000 + 5 + rel, 0x1000);
}

#[test]
fn x86_trampoline_relocation_overflow() {
    let code = prologue(&[0xE8, 0x10, 0x00, 0x00, 0x00]);
    let r = build_trampoline(&code, 0x1000, 0x1_0000_1000, 5);
    assert_eq!(r, Err(HookError::TrampolineRelocateOverflow(0x1_0000_0000)));
}

#[test]
fn x86_trampoline_decoder_error() {
    let code = prologue(&[0xD6]);
    assert_eq!(build_trampoline(&code, 0x1000, 0x3000, 5), Err(HookError::UnknownInstruction(0xD6)));
}

#[test]
fn x86_trampoline_short_operand_is_cut_to_instruction() {
    // 66 E8 34 12: call with a 16-bit operand; only its two bytes are kept
    let code = prologue(&[0x66, 0xE8, 0x34, 0x12, 0x90]);
    let t = build_trampoline(&code, 0x1000, 0x3000, 5).unwrap();
    assert_eq!(&t[..5], &[0x66, 0xE8, 0x34, 0xF2, 0x90]);
}

#[test]
fn x86_trampoline_size_formula() {
    assert_eq!(trampoline_size(5), 5 + 15 + 14 + 64);
    assert_eq!(trampoline_size(14), 14 + 15 + 14 + 64);
}

#[test]
fn x86_trampoline_short_jump_below_address_zero_wraps() {
    // jmp -128 at 0x10 lands at 2^64 - 0x6E; from 0x1000 that is 0x1073 bytes back
    let code = prologue(&[0xEB, 0x80, 0x90, 0x90, 0x90]);
    let t = build_trampoline(&code, 0x10, 0x1000, 5).unwrap();
    assert_eq!(&t[..5], &[0xE9, 0x8D, 0xEF, 0xFF, 0xFF]);
}

#[test]
fn x86_trampoline_fits_its_buffer() {
    // seven short jumps: each grows from two bytes to six
    let mut head = Vec::new();
    for _ in 0..7 {
        head.extend_from_slice(&[0x74, 0x00]);
    }
    let code = prologue(&head);
    let t = build_trampoline(&code, 0x1000, 0x3000, 14).unwrap();
    assert_eq!(t.len(), 7 * 6 + 14);
    assert!(t.len() <= trampoline_size(14));
}

#[test]
fn x86_trampoline_widens_prefixed_short_jcc() {
    // ds je +5 at 0x1000: three bytes, the displacement is the last one; target 0x1008
    let code = prologue(&[0x3E, 0x74, 0x05, 0x90, 0x90]);
    let t = build_trampoline(&code, 0x1000, 0x3000, 5).unwrap();
    assert_eq!(&t[..6], &[0x0F, 0x84, 0x02, 0xE0, 0xFF, 0xFF]);
    let rel = i32::from_le_bytes([t[2], t[3], t[4], t[5]]) as i64;
    assert_eq!(0x3000 + 6 + rel, 0x1008);
}

#[test]
fn x86_trampoline_refuses_operand_overflow() {
    // call +0x7FFFFFF0 at 0x100000 moved to 0x1000: the new operand exceeds i32
    let code = prologue(&[0xE8, 0xF0, 0xFF, 0xFF, 0x7F]);
    let r = build_trampoline(&code, 0x10_0000, 0x1000, 5);
    assert_eq!(r, Err(HookError::TrampolineRelocateOverflow(0x7FFF_FFF0 + 0xF_F000)));
}

#[test]
fn x86_trampoline_instruction_past_the_prologue() {
    // eleven prefixes, REX.W, mov [rsp + disp32], imm: 27 bytes, more than the 19 at hand
    let mut code = vec![0xF0, 0xF2, 0xF3, 0x2E, 0x36, 0x3E, 0x26, 0x64, 0x65, 0x66, 0x67, 0x48, 0xC7, 0x84, 0x24];
    code.resize(5 + 14, 0x00);
    assert_eq!(build_trampoline(&code, 0x1000, 0x3000, 5), Err(HookError::TruncatedInstruction));
}
