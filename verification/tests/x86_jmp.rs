use subhook_rs::error::HookError;
use subhook_rs::x86::hookflags::HookFlags;
use subhook_rs::x86::jmp::{encode_jmp, jmp_size, tail_flags, tail_jmp_size};

#[test]
fn x86_jmp_sizes() {
    assert_eq!(jmp_size(HookFlags::none()), 5);
    assert_eq!(jmp_size(HookFlags::use_64bit_offset()), 14);
    assert_eq!(tail_jmp_size(), 14);
    assert_eq!(jmp_size(tail_flags()), 14);
}

#[test]
fn x86_rel32_jmp_bytes() {
    // 0x2000 - (0x1000 + 5) = 0xFFB
    assert_eq!(encode_jmp(0x1000, 0x2000, HookFlags::none()), Ok(vec![0xE9, 0xFB, 0x0F, 0x00, 0x00]));
    // backwards: 0x1000 - 0x2005 = -0x1005
    assert_eq!(encode_jmp(0x2000, 0x1000, HookFlags::none()), Ok(vec![0xE9, 0xFB, 0xEF, 0xFF, 0xFF]));
}

#[test]
fn x86_rel32_jmp_overflow() {
    let src = 0x1000usize;
    let dst = 0x1_0000_2000usize;
    let dist = dst as i64 - (src as i64 + 5);
    assert_eq!(encode_jmp(src, dst, HookFlags::none()), Err(HookError::Overflow(dist)));
}

#[test]
fn x86_absolute_jmp_bytes() {
    let bytes = encode_jmp(0x1000, 0x1122_3344_5566_7788, HookFlags::use_64bit_offset()).unwrap();
    assert_eq!(
        bytes,
        vec![0x68, 0x88, 0x77, 0x66, 0x55, 0xC7, 0x44, 0x24, 0x04, 0x44, 0x33, 0x22, 0x11, 0xC3]
    );
}

#[test]
fn x86_flags_operations() {
    let none = HookFlags::none();
    let wide = HookFlags::use_64bit_offset();
    assert!(none.contains(none));
    assert!(!none.contains(wide));
    assert!(wide.contains(none));
    assert!((none | wide).contains(wide));
    assert_eq!((none | wide).bits(), 1);
    assert_eq!((wide & none).bits(), 0);
    assert_eq!(HookFlags::from_bits(3) & wide, wide);
    assert_eq!(HookFlags::default(), none);
}

#[test]
fn x86_rel32_jmp_wraps_around_the_address_space() {
    // from 1 to 2^64 - 4: the distance wraps to -10, as on the processor
    assert_eq!(
        encode_jmp(1, usize::MAX - 3, HookFlags::none()),
        Ok(vec![0xE9, 0xF6, 0xFF, 0xFF, 0xFF])
    );
}
