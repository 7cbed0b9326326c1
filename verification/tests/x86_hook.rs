use subhook_rs::common::{Hookable, ScopedRemove};
use subhook_rs::error::{HookError, NullPointerSource};
use subhook_rs::x86::hookflags::HookFlags;
use subhook_rs::x86::subhook::{check_pointers, Hook, Trampoline};

const SRC: usize = 0x1000;
const DST: usize = 0x2000;
const ORIGINAL: [u8; 5] = [0x55, 0x48, 0x89, 0xE5, 0x90];

/// A hook over a byte array standing for the code at `SRC`.
struct CodeHook {
    hook: Hook,
    code: Vec<u8>,
}

impl CodeHook {
    fn new(flags: HookFlags) -> CodeHook {
        let mut code = ORIGINAL.to_vec();
        code.resize(64, 0x90);
        let tramp = Ok(Trampoline { addr: 0x9000, size: 98 });
        let hook = Hook::new(SRC, DST, flags, &code, tramp).expect("Failed to create hook!");
        CodeHook { hook, code }
    }
}

impl Hookable for CodeHook {
    fn is_hooked(&self) -> bool {
        self.hook.is_installed()
    }

    fn install(&mut self) -> Result<(), HookError> {
        let code = &mut self.code;
        self.hook.install(|patch| {
            code[..patch.len()].copy_from_slice(&patch);
            Ok(())
        })
    }

    fn remove(&mut self) -> Result<(), HookError> {
        let code = &mut self.code;
        self.hook.remove(|original| {
            code[..original.len()].copy_from_slice(&original);
            Ok(())
        })
    }
}

#[test]
fn tests_double_install_errors() {
    let mut hook = CodeHook::new(HookFlags::none());
    hook.install().expect("First install failed");
    let err = hook.install().unwrap_err();
    assert_eq!(err, HookError::AlreadyInstalled);
    hook.remove().ok();
}

#[test]
fn tests_remove_before_install_errors() {
    let mut hook = CodeHook::new(HookFlags::none());
    let err = hook.remove().unwrap_err();
    assert_eq!(err, HookError::NotInstalled);
}

#[test]
fn x86_hook_null_pointers() {
    let code = vec![0x90u8; 64];
    let t = Ok(Trampoline { addr: 0x9000, size: 98 });
    assert_eq!(
        Hook::new(0, DST, HookFlags::none(), &code, t).err(),
        Some(HookError::NullPointer(NullPointerSource::Src))
    );
    assert_eq!(
        Hook::new(SRC, 0, HookFlags::none(), &code, t).err(),
        Some(HookError::NullPointer(NullPointerSource::Dst))
    );
    assert_eq!(check_pointers(0, 0), Err(HookError::NullPointer(NullPointerSource::Src)));
    assert_eq!(check_pointers(SRC, DST), Ok(()));
}

#[test]
fn x86_hook_accessors() {
    let hook = CodeHook::new(HookFlags::none()).hook;
    assert!(!hook.is_installed());
    assert_eq!(hook.src(), SRC);
    assert_eq!(hook.dst(), DST);
    assert_eq!(hook.jmp_size(), 5);
    assert_eq!(hook.trampoline(), Some(0x9000));
    assert_eq!(hook.trampoline_buffer(), Some(Trampoline { addr: 0x9000, size: 98 }));
    assert_eq!(hook.trampoline_error(), None);

    let code = vec![0x90u8; 64];
    let failed = Hook::new(SRC, DST, HookFlags::none(), &code, Err(HookError::UnknownInstruction(0xD6)))
        .unwrap();
    assert_eq!(failed.trampoline(), None);
    assert_eq!(failed.trampoline_error(), Some(&HookError::UnknownInstruction(0xD6)));
}

#[test]
fn x86_hook_install_writes_jump_and_remove_restores() {
    let mut hook = CodeHook::new(HookFlags::none());
    hook.install().unwrap();
    assert!(hook.hook.is_installed());
    assert_eq!(&hook.code[..5], &[0xE9, 0xFB, 0x0F, 0x00, 0x00]);
    hook.remove().unwrap();
    assert!(!hook.hook.is_installed());
    assert_eq!(&hook.code[..5], &ORIGINAL);
}

#[test]
fn x86_hook_absolute_thunk() {
    let mut hook = CodeHook::new(HookFlags::use_64bit_offset());
    assert_eq!(hook.hook.jmp_size(), 14);
    hook.install().unwrap();
    assert_eq!(hook.code[0], 0x68);
    assert_eq!(hook.code[13], 0xC3);
}

#[test]
fn x86_hook_failed_write_keeps_state() {
    let mut hook = CodeHook::new(HookFlags::none()).hook;
    let r = hook.finish_install(Err(HookError::UnprotectFailed(13)));
    assert_eq!(r, Err(HookError::UnprotectFailed(13)));
    assert!(!hook.is_installed());
}

#[test]
fn x86_hook_overflowing_install() {
    let code = vec![0x90u8; 64];
    let hook = Hook::new(0x1000, 0x1_0000_2000, HookFlags::none(), &code, Err(HookError::NoTrampoline)).unwrap();
    assert_eq!(hook.begin_install(), Err(HookError::Overflow(0x1_0000_2000 - 0x1005)));
}

#[test]
fn x86_hook_thread_moves() {
    let hook = CodeHook::new(HookFlags::none()).hook;
    assert_eq!(hook.check_install_with_threads(), Ok(()));
    assert_eq!(hook.ip_after_install(SRC + 2), Some(0x9002));
    assert_eq!(hook.ip_after_install(SRC + 5), None);
    assert_eq!(hook.ip_after_install(SRC - 1), None);
    assert_eq!(hook.ip_after_remove(0x9002), Some(SRC + 2));
    assert_eq!(hook.ip_after_remove(0x9005), None);

    let code = vec![0x90u8; 64];
    let bare = Hook::new(SRC, DST, HookFlags::none(), &code, Err(HookError::NoTrampoline)).unwrap();
    assert_eq!(bare.check_install_with_threads(), Err(HookError::NoTrampoline));
    assert_eq!(bare.ip_after_install(SRC), None);
}

#[test]
fn tests_scoped_remove_restores_and_reinstalls() {
    let mut hook = CodeHook::new(HookFlags::none());
    hook.install().expect("install failed");
    {
        let mut guard = ScopedRemove::new(&mut hook);
        assert!(guard.removed());
        assert!(!guard.inner().hook.is_installed());
        assert_eq!(&guard.inner().code[..5], &ORIGINAL);
        assert_eq!(guard.restore(), Some(Ok(())));
    }
    assert!(hook.hook.is_installed());
    assert_eq!(hook.code[0], 0xE9);
    hook.remove().ok();
}

#[test]
fn x86_scoped_remove_of_removed_hook_is_noop() {
    let mut hook = CodeHook::new(HookFlags::none());
    let mut guard = ScopedRemove::new(&mut hook);
    assert!(!guard.removed());
    assert_eq!(guard.restore(), None);
    assert!(!hook.hook.is_installed());
}

#[test]
fn x86_hook_original_prologue() {
    let mut hook = CodeHook::new(HookFlags::none());
    hook.install().unwrap();
    assert_eq!(hook.code[0], 0xE9);
    // the patched bytes are replaced by the saved ones; the rest is read as it is
    let current = hook.code[..8].to_vec();
    assert_eq!(hook.hook.original_prologue(&current), vec![0x55, 0x48, 0x89, 0xE5, 0x90, 0x90, 0x90, 0x90]);
    assert_eq!(hook.hook.original_prologue(&current[..3]), vec![0x55, 0x48, 0x89]);
    assert_eq!(hook.hook.src(), SRC);
    assert_eq!(hook.hook.dst(), DST);
}

#[test]
fn x86_hook_install_and_remove_through_a_writer() {
    let code = vec![0x90u8; 64];
    let mut hook =
        Hook::new(SRC, DST, HookFlags::none(), &code, Ok(Trampoline { addr: 0x9000, size: 98 })).unwrap();
    // a failed write leaves the hook uninstalled
    assert_eq!(hook.install(|_| Err(HookError::UnprotectFailed(13))), Err(HookError::UnprotectFailed(13)));
    assert!(!hook.is_installed());
    let mut written = Vec::new();
    assert_eq!(hook.install(|patch| { written = patch; Ok(()) }), Ok(()));
    assert_eq!(written, vec![0xE9, 0xFB, 0x0F, 0x00, 0x00]);
    assert!(hook.is_installed());
    assert_eq!(hook.install(|_| Ok(())), Err(HookError::AlreadyInstalled));
    assert_eq!(hook.remove(|original| { written = original; Ok(()) }), Ok(()));
    assert_eq!(written, vec![0x90; 5]);
    assert!(!hook.is_installed());
    assert_eq!(hook.remove(|_| Ok(())), Err(HookError::NotInstalled));
}
