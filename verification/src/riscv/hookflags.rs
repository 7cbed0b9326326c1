//! Flags that select how a RISC-V hook is built.

use vstd::prelude::*;

verus! {

/// A set of hook options, as bits. RISC-V hooks define no options yet.
#[derive(Debug, Default, Clone, Copy, PartialEq, Eq, Structural)]
pub struct HookFlags(u32);

impl View for HookFlags {
    type V = u32;

    closed spec fn view(&self) -> u32 {
        self.0
    }
}

impl HookFlags {
    /// No special behaviour.
    pub fn none() -> (r: HookFlags)
        ensures
            r@ == 0,
    {
        HookFlags(0)
    }
}

} // verus!
