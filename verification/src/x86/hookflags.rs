//! Flags that select how an x86 hook is built.

use vstd::prelude::*;

verus! {

/// A set of hook options, as bits.
#[derive(Debug, Default, Clone, Copy, PartialEq, Eq, Structural)]
pub struct HookFlags(u32);

impl View for HookFlags {
    type V = u32;

    closed spec fn view(&self) -> u32 {
        self.0
    }
}

impl HookFlags {
    /// No special behaviour.
    pub fn none() -> (r: HookFlags)
        ensures
            r@ == 0,
    {
        HookFlags(0)
    }

    /// Use a 14-byte push/mov/ret thunk instead of a 5-byte rel32 jmp; required on x86-64 when
    /// src and dst are too far apart.
    pub fn use_64bit_offset() -> (r: HookFlags)
        ensures
            r@ == 1,
    {
        HookFlags(1)
    }

    /// The flags whose bits are `bits`.
    pub fn from_bits(bits: u32) -> (r: HookFlags)
        ensures
            r@ == bits,
    {
        HookFlags(bits)
    }

    /// The bits of these flags.
    pub fn bits(self) -> (r: u32)
        ensures
            r == self@,
    {
        self.0
    }

    /// Returns `true` if all bits in `other` are in `self`.
    pub fn contains(self, other: HookFlags) -> (r: bool)
        ensures
            r == (self@ & other@ == other@),
    {
        self.0 & other.0 == other.0
    }
}

impl core::ops::BitOr for HookFlags {
    type Output = HookFlags;

    fn bitor(self, rhs: HookFlags) -> (r: HookFlags)
        ensures
            r@ == self@ | rhs@,
    {
        HookFlags(self.0 | rhs.0)
    }
}

impl vstd::std_specs::ops::BitOrSpecImpl for HookFlags {
    open spec fn obeys_bitor_spec() -> bool {
        true
    }

    open spec fn bitor_req(self, rhs: HookFlags) -> bool {
        true
    }

    closed spec fn bitor_spec(self, rhs: HookFlags) -> HookFlags {
        HookFlags(self.0 | rhs.0)
    }
}

impl core::ops::BitAnd for HookFlags {
    type Output = HookFlags;

    fn bitand(self, rhs: HookFlags) -> (r: HookFlags)
        ensures
            r@ == self@ & rhs@,
    {
        HookFlags(self.0 & rhs.0)
    }
}

impl vstd::std_specs::ops::BitAndSpecImpl for HookFlags {
    open spec fn obeys_bitand_spec() -> bool {
        true
    }

    open spec fn bitand_req(self, rhs: HookFlags) -> bool {
        true
    }

    closed spec fn bitand_spec(self, rhs: HookFlags) -> HookFlags {
        HookFlags(self.0 & rhs.0)
    }
}

/// The union of two sets of flags contains each of them, and every set contains the empty one.
pub proof fn lemma_union_contains(a: HookFlags, b: HookFlags)
    ensures
        (a@ | b@) & a@ == a@,
        (a@ | b@) & b@ == b@,
        a@ & 0u32 == 0u32,
        a@ & a@ == a@,
{
    let x = a@;
    let y = b@;
    assert((x | y) & x == x && (x | y) & y == y && x & 0u32 == 0u32 && x & x == x) by (bit_vector);
}

} // verus!
