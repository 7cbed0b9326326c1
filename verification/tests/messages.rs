use subhook_rs::error::{HookError, NullPointerSource};
use subhook_rs::hook_attr::{check_hookable, HookAttrError};

#[test]
fn error_messages() {
    assert_eq!(HookError::NullPointer(NullPointerSource::Src).message(), "The 'src' pointer is null");
    assert_eq!(HookError::NullPointer(NullPointerSource::Dst).message(), "The 'dst' pointer is null");
    assert_eq!(HookError::AlreadyInstalled.message(), "Hook is already installed");
    assert_eq!(HookError::NotInstalled.message(), "Tried to remove a non installed hook");
    assert_eq!(
        HookError::AllocationFailed(12).message(),
        "Failed to allocate executable memory (OS Error: 12)"
    );
    assert_eq!(HookError::UnprotectFailed(-1).message(), "Memory unprotect failed (OS Error: -1)");
    assert_eq!(
        HookError::Overflow(4294967296).message(),
        "Src/Dst distance (4294967296 bytes) exceeds 32 bit integer range, use USE_64BIT_OFFSET"
    );
    assert_eq!(
        HookError::UnknownInstruction(0x0A).message(),
        "Dissassambler encountered unrecognized opcode 0x0A"
    );
    assert_eq!(
        HookError::UnknownInstruction(0xD6).message(),
        "Dissassambler encountered unrecognized opcode 0xD6"
    );
    assert_eq!(
        HookError::TrampolineRelocateOverflow(i64::MIN).message(),
        "Trampoline distance (-9223372036854775808 bytes) too large to relocate rel32 operand."
    );
    assert_eq!(
        HookError::TruncatedInstruction.message(),
        "Instruction data ended unexpectedly, could not fully decode instruction."
    );
    assert_eq!(
        HookError::NoTrampoline.message(),
        "No trampoline available; thread-safe install/remove requires a trampoline to remap thread IPs"
    );
    assert_eq!(HookError::ThreadOperationFailed(5).message(), "Thread operation failed (OS Error: 5)");
    assert_eq!(HookError::AllocationFailed(0).message(), "Failed to allocate executable memory (OS Error: 0)");
    assert_eq!(NullPointerSource::Src.name(), "src");
}

#[test]
fn hook_attribute_rules() {
    assert_eq!(check_hookable(false, false, false), Ok(()));
    assert_eq!(check_hookable(true, true, true), Err(HookAttrError::Async));
    assert_eq!(check_hookable(false, true, true), Err(HookAttrError::Const));
    assert_eq!(check_hookable(false, false, true), Err(HookAttrError::Generic));
    assert_eq!(HookAttrError::Async.message(), "#[hook] cannot be applied to async functions");
    assert_eq!(HookAttrError::Const.message(), "#[hook] cannot be applied to const functions");
    assert_eq!(HookAttrError::Generic.message(), "#[hook] cannot be applied to generic functions");
}
