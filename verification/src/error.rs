use vstd::prelude::*;

verus! {

/// Which of the two pointers handed to a hook was null.
#[derive(Debug, Clone, Copy, PartialEq, Eq, Structural)]
pub enum NullPointerSource {
    Src,
    Dst,
}

/// Everything that can go wrong while building, installing or removing a hook.
#[derive(Debug, Clone, Copy, PartialEq, Eq, Structural)]
pub enum HookError {
    /// The src or dst was null.
    NullPointer(NullPointerSource),
    /// Tried to install a hook that was already installed previously.
    AlreadyInstalled,
    /// Tried to remove a hook that was not installed yet.
    NotInstalled,
    /// Executable memory allocation failed; carries the OS error code.
    AllocationFailed(i32),
    /// Changing the protection of code memory failed; carries the OS error code.
    UnprotectFailed(i32),
    /// `src` and `dst` are too far apart for a rel32 jump; carries the distance in bytes.
    Overflow(i64),
    /// The decoder met an opcode it does not know; carries the opcode byte.
    UnknownInstruction(u8),
    /// A relative operand could not be re-targeted from the trampoline; carries the distance.
    TrampolineRelocateOverflow(i64),
    /// The input ended before the instruction could be fully decoded.
    TruncatedInstruction,
    /// A trampoline is required but none could be built.
    NoTrampoline,
    /// A thread operation failed; carries the OS error code.
    ThreadOperationFailed(u32),
}

/// The digit `d` (0..9) as a character.
pub open spec fn digit_char(d: int) -> char {
    (48 + d) as char
}

/// The decimal representation of `n`.
pub open spec fn decimal(n: nat) -> Seq<char>
    decreases n,
{
    if n < 10 {
        seq![digit_char(n as int)]
    } else {
        decimal(n / 10).push(digit_char((n % 10) as int))
    }
}

/// The decimal representation of `n`, with a minus sign when negative.
pub open spec fn signed_decimal(n: int) -> Seq<char> {
    if n < 0 {
        seq!['-'] + decimal((-n) as nat)
    } else {
        decimal(n as nat)
    }
}

/// The hexadecimal digit `d` (0..15), upper case.
pub open spec fn hex_char(d: int) -> char {
    if d < 10 {
        (48 + d) as char
    } else {
        (55 + d) as char
    }
}

/// `b` as two upper-case hexadecimal digits.
pub open spec fn hex_byte(b: u8) -> Seq<char> {
    seq![hex_char(b as int / 16), hex_char(b as int % 16)]
}

/// The name of the null pointer.
pub open spec fn source_name(s: NullPointerSource) -> Seq<char> {
    match s {
        NullPointerSource::Src => "src"@,
        NullPointerSource::Dst => "dst"@,
    }
}

/// The text that describes `e`.
pub open spec fn error_message(e: HookError) -> Seq<char> {
    match e {
        HookError::NullPointer(s) => "The '"@ + source_name(s) + "' pointer is null"@,
        HookError::AlreadyInstalled => "Hook is already installed"@,
        HookError::NotInstalled => "Tried to remove a non installed hook"@,
        HookError::AllocationFailed(code) => "Failed to allocate executable memory (OS Error: "@
            + signed_decimal(code as int) + ")"@,
        HookError::UnprotectFailed(code) => "Memory unprotect failed (OS Error: "@ + signed_decimal(
            code as int,
        ) + ")"@,
        HookError::Overflow(dist) => "Src/Dst distance ("@ + signed_decimal(dist as int)
            + " bytes) exceeds 32 bit integer range, use USE_64BIT_OFFSET"@,
        HookError::UnknownInstruction(opcode) => "Dissassambler encountered unrecognized opcode 0x"@
            + hex_byte(opcode),
        HookError::TrampolineRelocateOverflow(dist) => "Trampoline distance ("@ + signed_decimal(
            dist as int,
        ) + " bytes) too large to relocate rel32 operand."@,
        HookError::TruncatedInstruction =>
            "Instruction data ended unexpectedly, could not fully decode instruction."@,
        HookError::NoTrampoline =>
            "No trampoline available; thread-safe install/remove requires a trampoline to remap thread IPs"@,
        HookError::ThreadOperationFailed(code) => "Thread operation failed (OS Error: "@
            + signed_decimal(code as int) + ")"@,
    }
}

fn digit_str(d: u64) -> (r: &'static str)
    requires
        d < 16,
    ensures
        r@ == seq![hex_char(d as int)],
{
    proof {
        reveal_strlit("0");
        reveal_strlit("1");
        reveal_strlit("2");
        reveal_strlit("3");
        reveal_strlit("4");
        reveal_strlit("5");
        reveal_strlit("6");
        reveal_strlit("7");
        reveal_strlit("8");
        reveal_strlit("9");
        reveal_strlit("A");
        reveal_strlit("B");
        reveal_strlit("C");
        reveal_strlit("D");
        reveal_strlit("E");
        reveal_strlit("F");
    }
    match d {
        0 => "0",
        1 => "1",
        2 => "2",
        3 => "3",
        4 => "4",
        5 => "5",
        6 => "6",
        7 => "7",
        8 => "8",
        9 => "9",
        10 => "A",
        11 => "B",
        12 => "C",
        13 => "D",
        14 => "E",
        _ => "F",
    }
}

/// Appends the decimal representation of `n` to `s`.
fn push_decimal(s: &mut String, n: u64)
    ensures
        final(s)@ == old(s)@ + decimal(n as nat),
    decreases n,
{
    if n >= 10 {
        push_decimal(s, n / 10);
    }
    s.append(digit_str(n % 10));
    proof {
        if n >= 10 {
            assert(decimal(n as nat) == decimal((n / 10) as nat).push(digit_char((n % 10) as int)));
        }
    }
    assert(final(s)@ =~= old(s)@ + decimal(n as nat));
}

/// Appends the decimal representation of `n` to `s`.
fn push_signed_decimal(s: &mut String, n: i64)
    ensures
        final(s)@ == old(s)@ + signed_decimal(n as int),
{
    if n < 0 {
        proof {
            reveal_strlit("-");
        }
        s.append("-");
        let m = (-(n as i128)) as u64;
        push_decimal(s, m);
        assert(final(s)@ =~= old(s)@ + signed_decimal(n as int));
    } else {
        push_decimal(s, n as u64);
    }
}

impl NullPointerSource {
    /// The name of the pointer: `src` or `dst`.
    pub fn name(&self) -> (r: &'static str)
        ensures
            r@ == source_name(*self),
    {
        match self {
            NullPointerSource::Src => "src",
            NullPointerSource::Dst => "dst",
        }
    }
}

impl HookError {
    /// The text that describes this error.
    pub fn message(&self) -> (r: String)
        ensures
            r@ == error_message(*self),
    {
        let mut s = String::new();
        match *self {
            HookError::NullPointer(source) => {
                s.append("The '");
                s.append(source.name());
                s.append("' pointer is null");
            },
            HookError::AlreadyInstalled => {
                s.append("Hook is already installed");
            },
            HookError::NotInstalled => {
                s.append("Tried to remove a non installed hook");
            },
            HookError::AllocationFailed(code) => {
                s.append("Failed to allocate executable memory (OS Error: ");
                push_signed_decimal(&mut s, code as i64);
                s.append(")");
            },
            HookError::UnprotectFailed(code) => {
                s.append("Memory unprotect failed (OS Error: ");
                push_signed_decimal(&mut s, code as i64);
                s.append(")");
            },
            HookError::Overflow(dist) => {
                s.append("Src/Dst distance (");
                push_signed_decimal(&mut s, dist);
                s.append(" bytes) exceeds 32 bit integer range, use USE_64BIT_OFFSET");
            },
            HookError::UnknownInstruction(opcode) => {
                s.append("Dissassambler encountered unrecognized opcode 0x");
                s.append(digit_str((opcode / 16) as u64));
                s.append(digit_str((opcode % 16) as u64));
            },
            HookError::TrampolineRelocateOverflow(dist) => {
                s.append("Trampoline distance (");
                push_signed_decimal(&mut s, dist);
                s.append(" bytes) too large to relocate rel32 operand.");
            },
            HookError::TruncatedInstruction => {
                s.append("Instruction data ended unexpectedly, could not fully decode instruction.");
            },
            HookError::NoTrampoline => {
                s.append(
                    "No trampoline available; thread-safe install/remove requires a trampoline to remap thread IPs",
                );
            },
            HookError::ThreadOperationFailed(code) => {
                s.append("Thread operation failed (OS Error: ");
                push_signed_decimal(&mut s, code as i64);
                s.append(")");
            },
        }
        assert(s@ =~= error_message(*self));
        s
    }
}

} // verus!
