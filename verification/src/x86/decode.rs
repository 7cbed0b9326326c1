//! Building blocks shared by the x86 instruction-length decoders: legacy prefixes, the REX
//! prefix, the ModRM/SIB/displacement bytes and first-match opcode table lookup.

use vstd::prelude::*;
use crate::error::HookError;

verus! {

/// The instruction has a ModRM byte.
pub const FLAG_MODRM: u8 = 0x01;
/// The low 3 bits of the opcode encode a register.
pub const FLAG_PLUS_REGISTER: u8 = 0x02;
/// The reg field of the ModRM byte is an opcode extension.
pub const FLAG_REGISTER_OPCODE: u8 = 0x04;
/// A 1-byte immediate follows.
pub const FLAG_IMMEDIATE_8BIT: u8 = 0x08;
/// A 2-byte immediate follows.
pub const FLAG_IMMEDIATE_16BIT: u8 = 0x10;
/// An operand-sized immediate (4 bytes, 2 with 0x66, 8 with REX.W) follows.
pub const FLAG_IMMEDIATE_32BIT: u8 = 0x20;
/// The immediate is a relative address and needs relocation.
pub const FLAG_RELOCATION: u8 = 0x40;

/// Legacy prefixes, in the order in which the decoder tests for them.
pub const PREFIXES: [u8; 11] = [
    // LOCK, REPNE and REP
    0xF0, 0xF2, 0xF3,
    // Segment overrides
    0x2E, 0x36, 0x3E, 0x26, 0x64, 0x65,
    // Operand size override
    0x66,
    // Address size override
    0x67,
];

/// Upper bound on the length that a decoder in this crate can report for one instruction.
pub const MAX_DECODED_LEN: usize = 40;

/// Whether code runs in 64-bit mode (x86-64), where addresses are 64 bits wide: the REX prefix
/// exists, ModRM can address relative to RIP and the absolute 14-byte thunk is available.
pub open spec fn long_mode() -> bool {
    usize::BITS == 64
}

/// Whether code runs in 64-bit mode, see `long_mode`.
pub fn is_long_mode() -> (r: bool)
    ensures
        r == long_mode(),
{
    usize::BITS == 64
}

/// The byte at index `i`, if there is one.
pub open spec fn byte_at(code: Seq<u8>, i: int) -> Option<u8> {
    if 0 <= i < code.len() {
        Some(code[i])
    } else {
        None
    }
}

/// Whether `code` starts with `endbr64` (F3 0F 1E FA) or `endbr32` (F3 0F 1E FB).
pub open spec fn is_endbr(code: Seq<u8>) -> bool {
    &&& code.len() >= 4
    &&& code[0] == 0xF3u8
    &&& code[1] == 0x0Fu8
    &&& code[2] == 0x1Eu8
    &&& (code[3] == 0xFAu8 || code[3] == 0xFBu8)
}

/// Skips legacy prefixes: the entries of `PREFIXES` are tested in order from index `k`, each
/// against the byte at the current position and each at most once. Returns the position after
/// the skipped prefixes and the operand size (2 once 0x66 was skipped).
pub open spec fn scan_prefixes(code: Seq<u8>, k: int, pos: int, size: int) -> (int, int)
    decreases 11 - k,
{
    if k < 0 || k >= 11 {
        (pos, size)
    } else {
        let p = PREFIXES@[k];
        if byte_at(code, pos) == Some(p) {
            scan_prefixes(code, k + 1, pos + 1, if p == 0x66u8 { 2 } else { size })
        } else {
            scan_prefixes(code, k + 1, pos, size)
        }
    }
}

/// Skips a REX prefix (0x40..0x4F) at `pos`; REX.W makes the operand size 8.
pub open spec fn scan_rex(code: Seq<u8>, pos: int, size: int) -> (int, int) {
    let b = byte_at(code, pos);
    if b is Some && (b->0 & 0xF0u8) == 0x40u8 {
        (pos + 1, if b->0 & 0x08u8 != 0 { 8 } else { size })
    } else {
        (pos, size)
    }
}

/// Position after the prefixes (and, in 64-bit mode, the REX prefix) of `code`, and the
/// operand size.
pub open spec fn scan_all_prefixes(code: Seq<u8>) -> (int, int) {
    let (p, s) = scan_prefixes(code, 0, 0, 4);
    if long_mode() {
        scan_rex(code, p, s)
    } else {
        (p, s)
    }
}

/// Decodes the ModRM byte at `pos` with its SIB byte and displacement. Returns the position after
/// them and, for a RIP-relative operand (mod 0, r/m 5 in 64-bit mode), the position of its
/// 32-bit displacement.
#[verifier::opaque]
pub open spec fn scan_modrm(code: Seq<u8>, pos: int) -> Result<(int, Option<int>), HookError> {
    match byte_at(code, pos) {
        None => Err(HookError::TruncatedInstruction),
        Some(modrm) => {
            let mode = modrm >> 6u8;
            let rm = modrm & 0x07u8;
            let sib_end: Result<int, HookError> = if mode != 3 && rm == 4 {
                match byte_at(code, pos + 1) {
                    None => Err(HookError::TruncatedInstruction),
                    // a SIB base of 5 with mod 0 means a 32-bit displacement and no base; with
                    // mod 1 or 2 the displacement is the one counted below
                    Some(sib) => Ok(
                        pos + 2 + if sib & 0x07u8 == 5 && mode == 0 {
                            4int
                        } else {
                            0int
                        },
                    ),
                }
            } else {
                Ok(pos + 1)
            };
            match sib_end {
                Err(e) => Err(e),
                Ok(p) => {
                    let disp32 = mode == 0 && rm == 5;
                    let end = p + (if mode == 1 {
                        1int
                    } else {
                        0int
                    }) + (if mode == 2 || disp32 {
                        4int
                    } else {
                        0int
                    });
                    Ok((
                        end,
                        if disp32 && long_mode() {
                            Some(p)
                        } else {
                            None
                        },
                    ))
                },
            }
        },
    }
}

/// Whether entry `i` of a one-byte table matches opcode `op`, `next` being the byte after it.
pub open spec fn entry_matches(
    codes: Seq<u8>,
    regs: Seq<u8>,
    flags: Seq<u8>,
    i: int,
    op: u8,
    next: Option<u8>,
) -> bool {
    if flags[i] & FLAG_PLUS_REGISTER != 0 {
        op & 0xF8u8 == codes[i]
    } else if flags[i] & FLAG_REGISTER_OPCODE != 0 {
        op == codes[i] && next is Some && (next->0 >> 3u8) & 0x07u8 == regs[i]
    } else {
        op == codes[i]
    }
}

/// Index of the first entry at or after `i` that matches.
pub open spec fn first_match(
    codes: Seq<u8>,
    regs: Seq<u8>,
    flags: Seq<u8>,
    op: u8,
    next: Option<u8>,
    i: int,
) -> Option<int>
    decreases codes.len() - i,
{
    if i < 0 || i >= codes.len() {
        None
    } else if entry_matches(codes, regs, flags, i, op, next) {
        Some(i)
    } else {
        first_match(codes, regs, flags, op, next, i + 1)
    }
}

/// Index of the first entry at or after `i` whose opcode byte is `op`.
pub open spec fn first_code(codes: Seq<u8>, op: u8, i: int) -> Option<int>
    decreases codes.len() - i,
{
    if i < 0 || i >= codes.len() {
        None
    } else if codes[i] == op {
        Some(i)
    } else {
        first_code(codes, op, i + 1)
    }
}

pub proof fn lemma_first_match_bounds(
    codes: Seq<u8>,
    regs: Seq<u8>,
    flags: Seq<u8>,
    op: u8,
    next: Option<u8>,
    i: int,
)
    ensures
        first_match(codes, regs, flags, op, next, i) matches Some(j) ==> i <= j < codes.len()
            && entry_matches(codes, regs, flags, j, op, next),
    decreases codes.len() - i,
{
    if 0 <= i < codes.len() && !entry_matches(codes, regs, flags, i, op, next) {
        lemma_first_match_bounds(codes, regs, flags, op, next, i + 1);
    }
}

pub proof fn lemma_first_code_bounds(codes: Seq<u8>, op: u8, i: int)
    ensures
        first_code(codes, op, i) matches Some(j) ==> i <= j < codes.len() && codes[j] == op,
    decreases codes.len() - i,
{
    if 0 <= i < codes.len() && codes[i] != op {
        lemma_first_code_bounds(codes, op, i + 1);
    }
}

pub proof fn lemma_scan_prefixes(code: Seq<u8>, k: int, pos: int, size: int)
    requires
        0 <= k <= 11,
        size == 2 || size == 4,
    ensures
        pos <= scan_prefixes(code, k, pos, size).0 <= pos + (11 - k),
        scan_prefixes(code, k, pos, size).1 == 2 || scan_prefixes(code, k, pos, size).1 == 4,
    decreases 11 - k,
{
    if k < 11 {
        let p = PREFIXES@[k];
        if byte_at(code, pos) == Some(p) {
            lemma_scan_prefixes(code, k + 1, pos + 1, if p == 0x66u8 { 2 } else { size });
        } else {
            lemma_scan_prefixes(code, k + 1, pos, size);
        }
    }
}

pub proof fn lemma_scan_all_prefixes(code: Seq<u8>)
    ensures
        0 <= scan_all_prefixes(code).0 <= 12,
        scan_all_prefixes(code).1 == 2 || scan_all_prefixes(code).1 == 4 || scan_all_prefixes(
            code,
        ).1 == 8,
{
    lemma_scan_prefixes(code, 0, 0, 4);
}

pub proof fn lemma_scan_modrm(code: Seq<u8>, pos: int)
    ensures
        scan_modrm(code, pos) matches Ok((end, rip)) ==> pos + 1 <= end <= pos + 10 && (
        rip matches Some(q) ==> pos + 1 <= q && q + 4 == end),
{
    reveal(scan_modrm);
}

/// The byte at index `i` of `code`, if there is one.
pub fn get_byte(code: &[u8], i: usize) -> (r: Option<u8>)
    ensures
        r == byte_at(code@, i as int),
{
    if i < code.len() {
        Some(code[i])
    } else {
        None
    }
}

/// Whether `code` starts with an `endbr64` or `endbr32` instruction.
pub fn starts_with_endbr(code: &[u8]) -> (r: bool)
    ensures
        r == is_endbr(code@),
{
    code.len() >= 4 && code[0] == 0xF3 && code[1] == 0x0F && code[2] == 0x1E && (code[3] == 0xFA
        || code[3] == 0xFB)
}

/// Skips the legacy prefixes and, in 64-bit mode, the REX prefix. Returns the position of the
/// opcode and the operand size.
pub fn skip_prefixes(code: &[u8]) -> (r: (usize, usize))
    ensures
        r.0 as int == scan_all_prefixes(code@).0,
        r.1 as int == scan_all_prefixes(code@).1,
        r.0 <= 12,
        r.1 == 2 || r.1 == 4 || r.1 == 8,
{
    let mut pos: usize = 0;
    let mut size: usize = 4;
    let mut k: usize = 0;
    while k < 11
        invariant
            k <= 11,
            pos <= k,
            size == 2 || size == 4,
            scan_prefixes(code@, 0, 0, 4) == scan_prefixes(code@, k as int, pos as int, size as int),
        decreases 11 - k,
    {
        let p = PREFIXES[k];
        if get_byte(code, pos) == Some(p) {
            if p == 0x66 {
                size = 2;
            }
            pos = pos + 1;
        }
        k = k + 1;
    }
    if is_long_mode() {
        let b = get_byte(code, pos);
        match b {
            Some(rex) => {
                if (rex & 0xF0) == 0x40 {
                    pos = pos + 1;
                    if rex & 0x08 != 0 {
                        size = 8;
                    }
                }
            },
            None => {},
        }
    }
    (pos, size)
}

/// Decodes the ModRM byte at `pos`, see `scan_modrm`.
pub fn skip_modrm(code: &[u8], pos: usize) -> (r: Result<(usize, Option<usize>), HookError>)
    requires
        pos <= 40,
    ensures
        match r {
            Ok((end, rip)) => scan_modrm(code@, pos as int) == Ok::<(int, Option<int>), HookError>(
                (
                    end as int,
                    match rip {
                        Some(q) => Some(q as int),
                        None => None,
                    },
                ),
            ) && pos + 1 <= end <= pos + 10 && (rip matches Some(q) ==> pos + 1 <= q && q + 4 == end),
            Err(e) => scan_modrm(code@, pos as int) == Err::<(int, Option<int>), HookError>(e),
        },
{
    reveal(scan_modrm);
    let modrm = match get_byte(code, pos) {
        Some(b) => b,
        None => return Err(HookError::TruncatedInstruction),
    };
    let mut p = pos + 1;
    let mode = modrm >> 6;
    let rm = modrm & 0x07;
    if mode != 3 && rm == 4 {
        let sib = match get_byte(code, p) {
            Some(b) => b,
            None => return Err(HookError::TruncatedInstruction),
        };
        p = p + 1;
        if (sib & 0x07) == 5 && mode == 0 {
            p = p + 4;
        }
    }
    let disp32 = mode == 0 && rm == 5;
    let rip_pos = if disp32 && is_long_mode() {
        Some(p)
    } else {
        None
    };
    let mut end = p;
    if mode == 1 {
        end = end + 1;
    }
    if mode == 2 || disp32 {
        end = end + 4;
    }
    Ok((end, rip_pos))
}

/// Index of the first entry of a one-byte table that matches `op`, see `first_match`.
pub fn find_entry(codes: &[u8], regs: &[u8], flags: &[u8], op: u8, next: Option<u8>) -> (r: Option<
    usize,
>)
    requires
        codes@.len() == regs@.len(),
        codes@.len() == flags@.len(),
    ensures
        match r {
            Some(i) => first_match(codes@, regs@, flags@, op, next, 0) == Some(i as int) && i
                < codes@.len(),
            None => first_match(codes@, regs@, flags@, op, next, 0) is None,
        },
{
    let mut i: usize = 0;
    while i < codes.len()
        invariant
            i <= codes@.len(),
            codes@.len() == regs@.len(),
            codes@.len() == flags@.len(),
            first_match(codes@, regs@, flags@, op, next, 0) == first_match(
                codes@,
                regs@,
                flags@,
                op,
                next,
                i as int,
            ),
        decreases codes@.len() - i,
    {
        let f = flags[i];
        let found = if f & FLAG_PLUS_REGISTER != 0 {
            (op & 0xF8) == codes[i]
        } else if f & FLAG_REGISTER_OPCODE != 0 {
            match next {
                Some(x) => op == codes[i] && ((x >> 3) & 0x07) == regs[i],
                None => false,
            }
        } else {
            op == codes[i]
        };
        if found {
            return Some(i);
        }
        i = i + 1;
    }
    None
}

/// Index of the first entry of a table whose opcode byte is `op`, see `first_code`.
pub fn find_code(codes: &[u8], op: u8) -> (r: Option<usize>)
    ensures
        match r {
            Some(i) => first_code(codes@, op, 0) == Some(i as int) && i < codes@.len(),
            None => first_code(codes@, op, 0) is None,
        },
{
    let mut i: usize = 0;
    while i < codes.len()
        invariant
            i <= codes@.len(),
            first_code(codes@, op, 0) == first_code(codes@, op, i as int),
        decreases codes@.len() - i,
    {
        if codes[i] == op {
            return Some(i);
        }
        i = i + 1;
    }
    None
}

/// Whether `b` is one of the legacy prefixes: LOCK, REPNE, REP, a segment override, or an
/// operand or address size override.
pub open spec fn is_legacy_prefix(b: u8) -> bool {
    b == 0xF0u8 || b == 0xF2u8 || b == 0xF3u8 || b == 0x2Eu8 || b == 0x36u8 || b == 0x3Eu8 || b
        == 0x26u8 || b == 0x64u8 || b == 0x65u8 || b == 0x66u8 || b == 0x67u8
}

/// Where no legacy prefix stands at `pos`, none is skipped.
pub proof fn lemma_no_legacy_prefix(code: Seq<u8>, pos: int, size: int)
    requires
        byte_at(code, pos) matches Some(b) ==> !is_legacy_prefix(b),
    ensures
        scan_prefixes(code, 0, pos, size) == (pos, size),
{
    reveal_with_fuel(scan_prefixes, 12);
}

/// Putting a byte in front of `c` moves every byte of `c` one place on.
pub proof fn lemma_byte_at_after(b: u8, c: Seq<u8>, p: int)
    requires
        p >= 0,
    ensures
        byte_at(seq![b] + c, p + 1) == byte_at(c, p),
{
    if p < c.len() {
        assert((seq![b] + c)[p + 1] == c[p]);
    }
}

/// Putting a byte in front of `c` moves the ModRM operand that starts at `p` one place on, with
/// its end and its RIP-relative displacement.
pub proof fn lemma_scan_modrm_after(b: u8, c: Seq<u8>, p: int)
    requires
        p >= 0,
    ensures
        scan_modrm(seq![b] + c, p + 1) == (match scan_modrm(c, p) {
            Ok((end, rip)) => Ok((
                end + 1,
                match rip {
                    Some(q) => Some(q + 1),
                    None => None,
                },
            )),
            Err(e) => Err(e),
        }),
{
    reveal(scan_modrm);
    lemma_byte_at_after(b, c, p);
    lemma_byte_at_after(b, c, p + 1);
}

} // verus!
