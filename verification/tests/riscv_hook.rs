use subhook_rs::common::{Hookable, ScopedRemove};
use subhook_rs::error::{HookError, NullPointerSource};
use subhook_rs::riscv::hookflags::HookFlags;
use subhook_rs::riscv::jmp::{encode_jal, encode_jmp, jmp_size, tail_flags, tail_jmp_size};
use subhook_rs::riscv::subhook::{Hook, Trampoline};
use subhook_rs::riscv::trampoline::{build_trampoline, place_trampoline, trampoline_size};

#[test]
fn riscv_jal_thunk() {
    // jal x0, +16 ; nop
    assert_eq!(
        encode_jmp(0x1000, 0x1010, HookFlags::none()),
        Ok(vec![0x6F, 0x00, 0x00, 0x01, 0x13, 0x00, 0x00, 0x00])
    );
}

#[test]
fn riscv_auipc_jalr_thunk() {
    // auipc t0, 0x12345 ; jalr x0, 0x678(t0): 0 + 0x12345000 + 0x678 = 0x12345678
    assert_eq!(
        encode_jmp(0, 0x1234_5678, HookFlags::none()),
        Ok(vec![0x97, 0x52, 0x34, 0x12, 0x67, 0x80, 0x82, 0x67])
    );
    // a negative low part rounds the upper part up: 0x12346000 - 0x800 = 0x12345800
    assert_eq!(
        encode_jmp(0, 0x1234_5800, HookFlags::none()),
        Ok(vec![0x97, 0x62, 0x34, 0x12, 0x67, 0x80, 0x02, 0x80])
    );
}

#[test]
fn riscv_thunk_out_of_reach() {
    assert_eq!(
        encode_jmp(0, 0x1_0000_0000, HookFlags::none()),
        Err(HookError::Overflow(0x1_0000_0000))
    );
}

#[test]
fn riscv_sizes() {
    assert_eq!(jmp_size(HookFlags::none()), 8);
    assert_eq!(tail_jmp_size(), 8);
    assert_eq!(tail_flags(), HookFlags::none());
    assert_eq!(trampoline_size(8), 20);
}

#[test]
fn riscv_trampoline_relocates_jal() {
    // addi x1, x0, 1 ; jal x0, +8
    let mut code = vec![0x93, 0x00, 0x10, 0x00, 0x6F, 0x00, 0x80, 0x00];
    code.resize(16, 0x13);
    let t = build_trampoline(&code, 0x1000, 0x3000, 8).unwrap();
    assert_eq!(
        t,
        vec![
            0x93, 0x00, 0x10, 0x00, // addi copied
            0x6F, 0xE0, 0x8F, 0x80, // jal x0, 8 - 0x2000
            0x6F, 0xE0, 0x0F, 0x80, // jal x0, -0x2000 back to 0x1008
            0x13, 0x00, 0x00, 0x00,
        ]
    );
}

#[test]
fn riscv_trampoline_relocates_branch_and_auipc() {
    // beq x1, x2, +8 ; addi
    let mut code = vec![0x63, 0x84, 0x20, 0x00, 0x13, 0x00, 0x00, 0x00];
    code.resize(16, 0x13);
    let t = build_trampoline(&code, 0x1000, 0x1800, 8).unwrap();
    assert_eq!(&t[..4], &[0xE3, 0x84, 0x20, 0x80]);
    // auipc a0, 0x12345 ; addi
    let mut code2 = vec![0x17, 0x55, 0x34, 0x12, 0x13, 0x00, 0x00, 0x00];
    code2.resize(16, 0x13);
    let t2 = build_trampoline(&code2, 0x1000, 0x3000, 8).unwrap();
    assert_eq!(&t2[..4], &[0x17, 0x35, 0x34, 0x12]);
}

#[test]
fn riscv_trampoline_keeps_link_register() {
    // jal x1, +8 ; addi
    let mut code = vec![0xEF, 0x00, 0x80, 0x00, 0x13, 0x00, 0x00, 0x00];
    code.resize(16, 0x13);
    let t = build_trampoline(&code, 0x1000, 0x3000, 8).unwrap();
    // jal x1, 8 - 0x2000
    assert_eq!(&t[..4], &[0xEF, 0xE0, 0x8F, 0x80]);
}

#[test]
fn riscv_trampoline_refuses_what_cannot_be_relocated() {
    // beq out of reach of the trampoline
    let mut code = vec![0x63, 0x84, 0x20, 0x00, 0x13, 0x00, 0x00, 0x00];
    code.resize(16, 0x13);
    assert_eq!(
        build_trampoline(&code, 0x1000, 0x3000, 8),
        Err(HookError::TrampolineRelocateOverflow(0x2000))
    );
    // auipc moved by a distance that is not a multiple of 4096
    let mut code2 = vec![0x17, 0x55, 0x34, 0x12, 0x13, 0x00, 0x00, 0x00];
    code2.resize(16, 0x13);
    assert_eq!(
        build_trampoline(&code2, 0x1000, 0x1800, 8),
        Err(HookError::TrampolineRelocateOverflow(0x800))
    );
    // c.j 0 cannot reach its target from the trampoline
    let mut code3 = vec![0x01, 0x00, 0x01, 0xA0, 0x93, 0x00, 0x10, 0x00];
    code3.resize(16, 0x13);
    assert_eq!(
        build_trampoline(&code3, 0x1000, 0x3000, 8),
        Err(HookError::TrampolineRelocateOverflow(0x2000))
    );
}

#[test]
fn riscv_trampoline_keeps_compressed_instructions() {
    // c.nop ; c.mv x1, x2 ; addi ; ...
    let mut code = vec![0x01, 0x00, 0x8A, 0x80, 0x93, 0x00, 0x10, 0x00];
    code.resize(16, 0x13);
    let t = build_trampoline(&code, 0x1000, 0x3000, 8).unwrap();
    assert_eq!(&t[..8], &code[..8]);
    assert_eq!(t.len(), 16);
}

#[test]
fn riscv_hook_state() {
    let code = vec![0x13u8; 16];
    assert_eq!(
        Hook::new(0, 0x2000, HookFlags::none(), &code, Err(HookError::NoTrampoline)).err(),
        Some(HookError::NullPointer(NullPointerSource::Src))
    );
    let mut hook =
        Hook::new(0x1000, 0x1010, HookFlags::none(), &code, Ok(Trampoline { addr: 0x3000, size: 20 })).unwrap();
    assert_eq!(hook.trampoline(), Some(0x3000));
    assert_eq!(hook.begin_remove(), Err(HookError::NotInstalled));
    let patch = hook.begin_install().unwrap();
    assert_eq!(patch, vec![0x6F, 0x00, 0x00, 0x01, 0x13, 0x00, 0x00, 0x00]);
    hook.finish_install(Ok(())).unwrap();
    assert!(hook.is_installed());
    assert_eq!(hook.begin_install(), Err(HookError::AlreadyInstalled));
    assert_eq!(hook.begin_remove(), Ok(vec![0x13u8; 8]));
    hook.finish_remove(Ok(())).unwrap();
    assert!(!hook.is_installed());
    assert_eq!(hook.src(), 0x1000);
    assert_eq!(hook.dst(), 0x1010);
}

/// A hook over a byte array standing for the code at 0x1000 (`addi x0, x0, 0` throughout).
struct CodeHook {
    hook: Hook,
    code: Vec<u8>,
}

impl CodeHook {
    fn new() -> CodeHook {
        let code = vec![0x13u8; 16];
        let tramp = Ok(Trampoline { addr: 0x3000, size: 20 });
        let hook = Hook::new(0x1000, 0x1010, HookFlags::none(), &code, tramp).unwrap();
        CodeHook { hook, code }
    }
}

impl Hookable for CodeHook {
    fn is_hooked(&self) -> bool {
        self.hook.is_installed()
    }

    fn install(&mut self) -> Result<(), HookError> {
        let code = &mut self.code;
        self.hook.install(|patch| {
            code[..patch.len()].copy_from_slice(&patch);
            Ok(())
        })
    }

    fn remove(&mut self) -> Result<(), HookError> {
        let code = &mut self.code;
        self.hook.remove(|original| {
            code[..original.len()].copy_from_slice(&original);
            Ok(())
        })
    }
}

#[test]
fn riscv_double_install_errors() {
    let mut hook = CodeHook::new();
    hook.install().unwrap();
    assert!(hook.install().is_err());
}

#[test]
fn riscv_remove_before_install_errors() {
    let mut hook = CodeHook::new();
    assert!(hook.remove().is_err());
}

#[test]
fn riscv_scoped_remove_restores_and_reinstalls() {
    let mut hook = CodeHook::new();
    hook.install().unwrap();
    assert_eq!(&hook.code[..4], &[0x6F, 0x00, 0x00, 0x01]);
    {
        let mut guard = ScopedRemove::new(&mut hook);
        assert_eq!(&guard.inner().code[..8], &[0x13u8; 8]);
        assert_eq!(guard.restore(), Some(Ok(())));
    }
    assert!(hook.hook.is_installed());
    assert_eq!(&hook.code[..4], &[0x6F, 0x00, 0x00, 0x01]);
}

#[test]
fn riscv_jal_thunk_wraps_around_the_address_space() {
    // from 0x10 to 2^64 - 16: the distance wraps to -32, within reach of a jal
    assert_eq!(encode_jmp(0x10, usize::MAX - 0xF, HookFlags::none()), Ok(encode_jal(-32)));
}

#[test]
fn riscv_trampoline_placed_a_whole_number_of_pages_away() {
    assert_eq!(place_trampoline(0x7000_0000, 0x1234_5678), 0x7000_0678);
    assert_eq!(place_trampoline(0x7000_0000, 0x1234_5000), 0x7000_0000);
}
